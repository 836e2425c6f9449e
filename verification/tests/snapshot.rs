use form_autosave::snapshot::FormSnapshot;
use form_autosave::storage::FormField;

fn field(name: &str, value: &str) -> FormField {
    FormField { name: name.to_string(), value: value.to_string() }
}

#[test]
fn new_snapshot_is_empty() {
    let s = FormSnapshot::new();
    assert_eq!(s.len(), 0);
    assert!(s.get("email").is_none());
    assert!(s.fields().is_empty());
}

#[test]
fn upsert_adds_a_field() {
    let mut s = FormSnapshot::new();
    s.upsert(field("email", "a@b.com"));
    assert_eq!(s.len(), 1);
    assert_eq!(s.get("email").map(|v| v.as_str()), Some("a@b.com"));
}

#[test]
fn upsert_replaces_the_value_of_a_known_field() {
    let mut s = FormSnapshot::new();
    s.upsert(field("email", "a"));
    s.upsert(field("email", "a@b.com"));
    assert_eq!(s.len(), 1);
    assert_eq!(s.get("email").map(|v| v.as_str()), Some("a@b.com"));
}

#[test]
fn upsert_merges_and_does_not_replace() {
    let mut s = FormSnapshot::new();
    s.upsert(field("b", "kept"));
    s.upsert(field("a", "new"));
    assert_eq!(s.get("b").map(|v| v.as_str()), Some("kept"));
    assert_eq!(s.get("a").map(|v| v.as_str()), Some("new"));
    s.upsert(field("a", "newer"));
    assert_eq!(s.get("b").map(|v| v.as_str()), Some("kept"));
    assert_eq!(s.get("a").map(|v| v.as_str()), Some("newer"));
    assert_eq!(s.len(), 2);
}

#[test]
fn fields_hold_each_name_once() {
    let mut s = FormSnapshot::new();
    s.upsert(field("one", "1"));
    s.upsert(field("two", "2"));
    s.upsert(field("one", "uno"));
    let mut pairs: Vec<(&str, &str)> =
        s.fields().iter().map(|f| (f.name.as_str(), f.value.as_str())).collect();
    pairs.sort();
    assert_eq!(pairs, vec![("one", "uno"), ("two", "2")]);
}

#[test]
fn get_of_unknown_name_is_none() {
    let mut s = FormSnapshot::new();
    s.upsert(field("email", "a@b.com"));
    assert!(s.get("name").is_none());
    assert!(s.get("").is_none());
    assert!(s.get("Email").is_none());
}

#[test]
fn empty_value_is_a_value() {
    let mut s = FormSnapshot::new();
    s.upsert(field("email", ""));
    assert_eq!(s.get("email").map(|v| v.as_str()), Some(""));
    assert_eq!(s.len(), 1);
}

#[test]
fn from_fields_keeps_the_last_value_of_a_name() {
    let s = FormSnapshot::from_fields(&vec![
        field("email", "first"),
        field("name", "Jo"),
        field("email", "last"),
    ]);
    assert_eq!(s.len(), 2);
    assert_eq!(s.get("email").map(|v| v.as_str()), Some("last"));
    assert_eq!(s.get("name").map(|v| v.as_str()), Some("Jo"));
}

#[test]
fn from_no_fields_is_empty() {
    let s = FormSnapshot::from_fields(&Vec::new());
    assert_eq!(s.len(), 0);
}

#[test]
fn snapshot_clone_holds_the_same_fields() {
    let mut s = FormSnapshot::new();
    s.upsert(field("email", "a@b.com"));
    s.upsert(field("name", "Jo"));
    let mut copy = s.clone();
    assert_eq!(copy.len(), 2);
    assert_eq!(copy.get("email").map(|v| v.as_str()), Some("a@b.com"));
    copy.upsert(field("email", "changed"));
    assert_eq!(s.get("email").map(|v| v.as_str()), Some("a@b.com"));
}

#[test]
fn field_clone_keeps_name_and_value() {
    let f = field("email", "a@b.com").clone();
    assert_eq!(f.name, "email");
    assert_eq!(f.value, "a@b.com");
}
