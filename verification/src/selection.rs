//! Selection policy: which discovered databases are dumped.
//!
//! The export spec holds an inclusion list (possibly the wildcard entry
//! `*`, meaning "all") and an exclusion list. With the wildcard, the
//! result is the discovered list, in discovery order, with every excluded
//! name removed. Without it, the result is the inclusion list, in its own
//! order and with duplicates kept, restricted to names actually present on
//! the server; the exclusion list is not consulted in that branch.

use vstd::prelude::*;

verus! {

/// What the run declares: an ordered inclusion list (the entry `*` means
/// "all") and an ordered exclusion list. Exclusion takes precedence over
/// wildcard inclusion; with an explicit list it is ignored.
#[derive(Clone)]
pub struct ExportSpec {
    pub inclusion: Vec<String>,
    pub exclusion: Vec<String>,
}

/// Whether the inclusion list holds the wildcard entry `*`.
pub open spec fn has_wildcard(incl: Seq<Seq<char>>) -> bool {
    incl.contains("*"@)
}

/// The discovered list in discovery order, with every name present in
/// `excl` removed.
pub open spec fn wildcard_selection(d: Seq<Seq<char>>, excl: Seq<Seq<char>>) -> Seq<Seq<char>>
    decreases d.len(),
{
    if d.len() == 0 {
        Seq::empty()
    } else {
        let kept = wildcard_selection(d.drop_last(), excl);
        if excl.contains(d.last()) {
            kept
        } else {
            kept.push(d.last())
        }
    }
}

/// The inclusion list in its own order, duplicates kept, restricted to
/// names present in `d`.
pub open spec fn explicit_selection(incl: Seq<Seq<char>>, d: Seq<Seq<char>>) -> Seq<Seq<char>>
    decreases incl.len(),
{
    if incl.len() == 0 {
        Seq::empty()
    } else {
        let kept = explicit_selection(incl.drop_last(), d);
        if d.contains(incl.last()) {
            kept.push(incl.last())
        } else {
            kept
        }
    }
}

/// The ordered list of databases to dump: the wildcard branch when `incl`
/// holds `*`, the explicit branch otherwise. Exclusion takes precedence
/// over wildcard inclusion and is ignored for an explicit list.
pub open spec fn selection(d: Seq<Seq<char>>, incl: Seq<Seq<char>>, excl: Seq<Seq<char>>) -> Seq<
    Seq<char>,
> {
    if has_wildcard(incl) {
        wildcard_selection(d, excl)
    } else {
        explicit_selection(incl, d)
    }
}

/// How often `x` occurs in `s`.
pub open spec fn occurrences(s: Seq<Seq<char>>, x: Seq<char>) -> nat
    decreases s.len(),
{
    if s.len() == 0 {
        0
    } else {
        occurrences(s.drop_last(), x) + (if s.last() == x {
            1nat
        } else {
            0nat
        })
    }
}

/// A sequence contains `x` exactly when its last element is `x` or the
/// rest contains `x`.
proof fn lemma_contains_split(s: Seq<Seq<char>>, x: Seq<char>)
    requires
        s.len() > 0,
    ensures
        s.contains(x) <==> (s.drop_last().contains(x) || s.last() == x),
{
    assert(s.drop_last().push(s.last()) =~= s);
    vstd::seq_lib::lemma_seq_contains_after_push(s.drop_last(), s.last(), x);
}

/// With wildcard inclusion, a name is selected exactly when it was
/// discovered and is not excluded; the selection keeps discovery order by
/// construction.
pub proof fn lemma_wildcard_membership(d: Seq<Seq<char>>, excl: Seq<Seq<char>>, x: Seq<char>)
    ensures
        wildcard_selection(d, excl).contains(x) <==> (d.contains(x) && !excl.contains(x)),
    decreases d.len(),
{
    if d.len() == 0 {
        assert(!d.contains(x));
        assert(!wildcard_selection(d, excl).contains(x));
    } else {
        lemma_wildcard_membership(d.drop_last(), excl, x);
        lemma_contains_split(d, x);
        let kept = wildcard_selection(d.drop_last(), excl);
        if !excl.contains(d.last()) {
            vstd::seq_lib::lemma_seq_contains_after_push(kept, d.last(), x);
        }
    }
}

/// With an explicit inclusion list, a name is selected exactly when it is
/// both included and discovered; the exclusion list plays no part, and
/// the selection keeps inclusion order by construction.
pub proof fn lemma_explicit_membership(incl: Seq<Seq<char>>, d: Seq<Seq<char>>, x: Seq<char>)
    ensures
        explicit_selection(incl, d).contains(x) <==> (incl.contains(x) && d.contains(x)),
    decreases incl.len(),
{
    if incl.len() == 0 {
        assert(!incl.contains(x));
        assert(!explicit_selection(incl, d).contains(x));
    } else {
        lemma_explicit_membership(incl.drop_last(), d, x);
        lemma_contains_split(incl, x);
        let kept = explicit_selection(incl.drop_last(), d);
        if d.contains(incl.last()) {
            vstd::seq_lib::lemma_seq_contains_after_push(kept, incl.last(), x);
        }
    }
}

/// Duplicate entries in an explicit inclusion list are kept: a name
/// present on the server occurs in the selection exactly as often as in
/// the inclusion list — no implicit deduplication.
pub proof fn lemma_duplicates_preserved(incl: Seq<Seq<char>>, d: Seq<Seq<char>>, x: Seq<char>)
    requires
        d.contains(x),
    ensures
        occurrences(explicit_selection(incl, d), x) == occurrences(incl, x),
    decreases incl.len(),
{
    if incl.len() == 0 {
    } else {
        lemma_duplicates_preserved(incl.drop_last(), d, x);
        let kept = explicit_selection(incl.drop_last(), d);
        if d.contains(incl.last()) {
            let pushed = kept.push(incl.last());
            assert(explicit_selection(incl, d) == pushed);
            assert(pushed.drop_last() =~= kept);
            assert(pushed.last() == incl.last());
        } else {
            assert(incl.last() != x);
        }
    }
}

/// Whether any element of `names` equals `x`.
pub fn contains_name(names: &Vec<String>, x: &String) -> (r: bool)
    ensures
        r == names.deep_view().contains(x@),
{
    let mut i: usize = 0;
    while i < names.len()
        invariant
            i <= names.len(),
            forall|k: int| 0 <= k < i ==> names.deep_view()[k] != x@,
        decreases names.len() - i,
    {
        if names[i] == *x {
            proof {
                assert(names.deep_view()[i as int] == x@);
            }
            return true;
        }
        i += 1;
    }
    false
}

/// Computes the selection policy on concrete lists.
pub fn select(discovered: &Vec<String>, exports: &ExportSpec) -> (r: Vec<String>)
    ensures
        r.deep_view() == selection(
            discovered.deep_view(),
            exports.inclusion.deep_view(),
            exports.exclusion.deep_view(),
        ),
{
    let inclusion = &exports.inclusion;
    let exclusion = &exports.exclusion;
    let star: String = "*".to_owned();
    let wild = contains_name(inclusion, &star);
    let mut result: Vec<String> = Vec::new();
    if wild {
        let ghost d = discovered.deep_view();
        let ghost e = exclusion.deep_view();
        let mut i: usize = 0;
        while i < discovered.len()
            invariant
                i <= discovered.len(),
                d == discovered.deep_view(),
                e == exclusion.deep_view(),
                result.deep_view() == wildcard_selection(d.take(i as int), e),
            decreases discovered.len() - i,
        {
            let ghost prev = result.deep_view();
            let name = &discovered[i];
            if !contains_name(exclusion, name) {
                result.push(name.clone());
            }
            proof {
                assert(d.take(i + 1).drop_last() =~= d.take(i as int));
                assert(d.take(i + 1).last() == name@);
                if !e.contains(name@) {
                    assert(result.deep_view() =~= prev.push(name@));
                }
            }
            i += 1;
        }
        proof {
            assert(d.take(discovered.len() as int) =~= d);
        }
    } else {
        let ghost d = discovered.deep_view();
        let ghost inc = inclusion.deep_view();
        let mut i: usize = 0;
        while i < inclusion.len()
            invariant
                i <= inclusion.len(),
                d == discovered.deep_view(),
                inc == inclusion.deep_view(),
                result.deep_view() == explicit_selection(inc.take(i as int), d),
            decreases inclusion.len() - i,
        {
            let ghost prev = result.deep_view();
            let name = &inclusion[i];
            if contains_name(discovered, name) {
                result.push(name.clone());
            }
            proof {
                assert(inc.take(i + 1).drop_last() =~= inc.take(i as int));
                assert(inc.take(i + 1).last() == name@);
                if d.contains(name@) {
                    assert(result.deep_view() =~= prev.push(name@));
                }
            }
            i += 1;
        }
        proof {
            assert(inc.take(inclusion.len() as int) =~= inc);
        }
    }
    result
}

} // verus!
