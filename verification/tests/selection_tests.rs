use db_backup::selection::select;
use db_backup::selection::ExportSpec;

fn names(v: &[&str]) -> Vec<String> {
    v.iter().map(|s| s.to_string()).collect()
}

fn spec_of(inclusion: &[&str], exclusion: &[&str]) -> ExportSpec {
    ExportSpec { inclusion: names(inclusion), exclusion: names(exclusion) }
}

#[test]
fn wildcard_removes_excluded_names_in_discovery_order() {
    let discovered = names(&["a", "b", "c"]);
    let r = select(&discovered, &spec_of(&["*"], &["b"]));
    assert_eq!(r, names(&["a", "c"]));
}

#[test]
fn wildcard_with_empty_exclusion_keeps_everything() {
    let discovered = names(&["x", "y"]);
    let r = select(&discovered, &spec_of(&["*"], &[]));
    assert_eq!(r, names(&["x", "y"]));
}

#[test]
fn wildcard_with_everything_excluded_is_empty() {
    let discovered = names(&["x", "y"]);
    let r = select(&discovered, &spec_of(&["*"], &["y", "x"]));
    assert_eq!(r, Vec::<String>::new());
}

#[test]
fn explicit_list_keeps_inclusion_order_and_ignores_exclusion() {
    let discovered = names(&["a", "b"]);
    let r = select(&discovered, &spec_of(&["x", "a"], &["a"]));
    assert_eq!(r, names(&["a"]));
}

#[test]
fn explicit_list_orders_by_inclusion_not_discovery() {
    let discovered = names(&["a", "b", "c"]);
    let r = select(&discovered, &spec_of(&["c", "a"], &[]));
    assert_eq!(r, names(&["c", "a"]));
}

#[test]
fn duplicates_in_inclusion_are_kept() {
    let discovered = names(&["a", "b"]);
    let r = select(&discovered, &spec_of(&["a", "a", "b"], &[]));
    assert_eq!(r, names(&["a", "a", "b"]));
}

#[test]
fn empty_discovered_is_empty_in_both_branches() {
    let none = names(&[]);
    assert_eq!(select(&none, &spec_of(&["*"], &["b"])), Vec::<String>::new());
    assert_eq!(select(&none, &spec_of(&["a"], &[])), Vec::<String>::new());
}
