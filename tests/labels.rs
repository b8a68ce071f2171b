use zenkit_codegen::labels::{lookup_label, sort_labels, text_le_exec};
use zenkit_codegen::schema::Label;

fn label(id: u64, name: &str) -> Label {
    Label { id, name: name.to_string() }
}

#[test]
fn table_sorted_by_bytes() {
    let table = sort_labels(&vec![label(1, "b"), label(2, "B"), label(3, "a"), label(4, "é"), label(5, "ab")]);
    let names: Vec<&str> = table.iter().map(|l| l.name.as_str()).collect();
    assert_eq!(names, vec!["B", "a", "ab", "b", "é"]);
}

#[test]
fn every_label_found_with_its_id() {
    let labels = vec![label(10, "Open"), label(20, "Closed"), label(30, "In progress"), label(40, "Blocked")];
    let table = sort_labels(&labels);
    for l in &labels {
        assert_eq!(lookup_label(&table, &l.name), Some(l.id));
    }
    assert_eq!(lookup_label(&table, "open"), None);
    assert_eq!(lookup_label(&table, ""), None);
}

#[test]
fn empty_table_finds_nothing() {
    let table = sort_labels(&vec![]);
    assert!(table.is_empty());
    assert_eq!(lookup_label(&table, "Low"), None);
}

#[test]
fn duplicate_names_keep_schema_order() {
    let table = sort_labels(&vec![label(1, "Same"), label(2, "Other"), label(3, "Same")]);
    let ids: Vec<u64> = table.iter().map(|l| l.id).collect();
    assert_eq!(ids, vec![2, 1, 3]);
    assert_eq!(lookup_label(&table, "Same"), Some(1));
}

#[test]
fn string_order_is_byte_order() {
    assert!(text_le_exec("abc", "abd"));
    assert!(text_le_exec("ab", "abc"));
    assert!(!text_le_exec("abc", "ab"));
    assert!(text_le_exec("", ""));
    assert!(text_le_exec("Z", "a"));
}
