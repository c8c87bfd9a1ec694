//! Result reporting: ordering the collected success records.
//!
//! Every successful dump yields one record (loop index, database name,
//! elapsed microseconds). The final report lists them by ascending
//! duration; records with equal duration keep their loop order, which the
//! explicit index makes exact: the smaller original index comes first.

use vstd::prelude::*;
use vstd::string::StringExecFns;

use crate::numfmt::dec_rep;
use crate::numfmt::dec_string;

verus! {

broadcast use vstd::seq_lib::group_to_multiset_ensures, vstd::multiset::group_multiset_axioms;

/// One successful dump: position in the dump loop, database name,
/// elapsed microseconds.
#[derive(Clone, Debug)]
pub struct DumpRecord {
    pub index: usize,
    pub name: String,
    pub micros: u128,
}

/// Report order: ascending elapsed time, ties broken by the original
/// loop index.
pub open spec fn record_le(a: DumpRecord, b: DumpRecord) -> bool {
    a.micros < b.micros || (a.micros == b.micros && a.index <= b.index)
}

/// Whether a sequence of records is in report order.
pub open spec fn sorted_records(s: Seq<DumpRecord>) -> bool {
    forall|i: int, j: int| 0 <= i < j < s.len() ==> record_le(s[i], s[j])
}

/// The report line for one record: the database name and its duration.
pub fn report_line(record: &DumpRecord) -> (r: String)
    ensures
        r@ == record.name@ + " ("@ + dec_rep(record.micros as nat) + " microseconds)"@,
{
    let r = record.name.clone().concat(" (").concat(dec_string(record.micros).as_str()).concat(
        " microseconds)",
    );
    proof {
        assert(r@ =~= record.name@ + " ("@ + dec_rep(record.micros as nat) + " microseconds)"@);
    }
    r
}

/// Sorts the success records for the final report: ascending duration,
/// and for equal durations the record with the smaller original index
/// comes first. The result holds exactly the given records.
pub fn sort_records(records: Vec<DumpRecord>) -> (r: Vec<DumpRecord>)
    ensures
        r@.to_multiset() == records@.to_multiset(),
        r@.len() == records@.len(),
        sorted_records(r@),
{
    let ghost orig = records@;
    let mut rest = records;
    let mut out: Vec<DumpRecord> = Vec::new();
    while rest.len() > 0
        invariant
            sorted_records(out@),
            out@.to_multiset().add(rest@.to_multiset()) == orig.to_multiset(),
            out@.len() + rest@.len() == orig.len(),
        decreases rest.len(),
    {
        let ghost rest_before = rest@;
        let rec = rest.remove(0);
        proof {
            assert(rest@ =~= rest_before.remove(0));
            assert(rest_before.contains(rec)) by {
                assert(rest_before[0] == rec);
            }
        }
        let mut p: usize = 0;
        while p < out.len() && (out[p].micros < rec.micros || (out[p].micros == rec.micros
            && out[p].index <= rec.index))
            invariant
                p <= out.len(),
                sorted_records(out@),
                forall|k: int| 0 <= k < p ==> record_le(out@[k], rec),
            decreases out.len() - p,
        {
            p += 1;
        }
        let ghost out_before = out@;
        let ghost pos = p as int;
        out.insert(p, rec);
        proof {
            assert(out@ == out_before.insert(pos, rec));
            out_before.insert_ensures(pos, rec);
            assert forall|i: int, j: int| 0 <= i < j < out@.len() implies record_le(
                out@[i],
                out@[j],
            ) by {
                if j < pos {
                    assert(record_le(out_before[i], out_before[j]));
                } else if i < pos && j == pos {
                    assert(record_le(out_before[i], rec));
                } else if i < pos && j > pos {
                    assert(record_le(out_before[i], out_before[j - 1]));
                } else if i == pos {
                    if pos < out_before.len() {
                        assert(!record_le(out_before[pos], rec));
                        assert(record_le(rec, out_before[pos]));
                        if j > pos + 1 {
                            assert(record_le(out_before[pos], out_before[j - 1]));
                        }
                    }
                } else {
                    assert(record_le(out_before[i - 1], out_before[j - 1]));
                }
            }
            assert(out@.to_multiset() == out_before.to_multiset().insert(rec));
            assert(out@.to_multiset().add(rest@.to_multiset()) =~= orig.to_multiset());
        }
    }
    proof {
        assert forall|x: DumpRecord| #[trigger] out@.to_multiset().count(x)
            == orig.to_multiset().count(x) by {
            assert(!rest@.contains(x));
            assert(rest@.to_multiset().count(x) == 0);
        }
        assert(out@.to_multiset() =~= orig.to_multiset());
    }
    out
}

} // verus!
