use form_autosave::capture::{
    bind_targets, capture, invalidate, CHANGE_EVENT, CONTROL_SELECTOR, FORM_SELECTOR, INPUT_EVENT,
    SUBMIT_EVENT,
};
use form_autosave::page::{ControlKind, Element};
use form_autosave::storage::StoreWrite;

fn control(id: Option<&str>, kind: Option<ControlKind>, value: &str) -> Element {
    Element { id: id.map(|s| s.to_string()), kind, value: value.to_string() }
}

#[test]
fn what_is_scanned_and_listened_for() {
    assert_eq!(CONTROL_SELECTOR, "input, select, textarea");
    assert_eq!(FORM_SELECTOR, "form");
    assert_eq!(INPUT_EVENT, "input");
    assert_eq!(CHANGE_EVENT, "change");
    assert_eq!(SUBMIT_EVENT, "submit");
}

#[test]
fn controls_with_an_id_are_watched() {
    let page = vec![
        control(Some("email"), Some(ControlKind::Input), ""),
        control(None, Some(ControlKind::Input), ""),
        control(Some(""), Some(ControlKind::Select), ""),
        control(Some("country"), Some(ControlKind::Select), "de"),
        control(Some("box"), None, ""),
        control(Some("notes"), Some(ControlKind::TextArea), "x"),
    ];
    assert_eq!(bind_targets(&page), vec![0, 3, 5]);
}

#[test]
fn nothing_is_watched_on_an_empty_page() {
    assert!(bind_targets(&Vec::new()).is_empty());
}

#[test]
fn duplicate_ids_are_all_watched() {
    let page = vec![
        control(Some("email"), Some(ControlKind::Input), ""),
        control(Some("email"), Some(ControlKind::Input), ""),
    ];
    assert_eq!(bind_targets(&page), vec![0, 1]);
}

#[test]
fn an_edit_saves_one_field_under_the_page_key() {
    let target = control(Some("email"), Some(ControlKind::Input), "a@b.com");
    match capture("https://example.com/login", &target) {
        Some(StoreWrite::MergeField { key, field }) => {
            assert_eq!(key, "https://example.com/login");
            assert_eq!(field.name, "email");
            assert_eq!(field.value, "a@b.com");
        },
        _ => panic!("expected a merge of one field"),
    }
}

#[test]
fn an_edit_of_a_target_without_an_id_saves_nothing() {
    assert!(capture("k", &control(None, Some(ControlKind::Input), "x")).is_none());
    assert!(capture("k", &control(Some(""), Some(ControlKind::Input), "x")).is_none());
}

#[test]
fn an_edit_to_an_empty_value_is_saved() {
    match capture("k", &control(Some("email"), Some(ControlKind::TextArea), "")) {
        Some(StoreWrite::MergeField { field, .. }) => {
            assert_eq!(field.name, "email");
            assert_eq!(field.value, "");
        },
        _ => panic!("expected a merge of one field"),
    }
}

#[test]
fn a_target_that_is_no_control_has_the_empty_value() {
    match capture("k", &control(Some("box"), None, "shown")) {
        Some(StoreWrite::MergeField { field, .. }) => {
            assert_eq!(field.name, "box");
            assert_eq!(field.value, "");
        },
        _ => panic!("expected a merge of one field"),
    }
}

#[test]
fn a_submission_sets_the_flag_and_clears_the_snapshot() {
    let writes = invalidate("https://example.com/login");
    assert_eq!(writes.len(), 2);
    match &writes[0] {
        StoreWrite::SetFlag { key, value } => {
            assert_eq!(key, "submitted:https://example.com/login");
            assert!(*value);
        },
        _ => panic!("expected the flag to be set first"),
    }
    match &writes[1] {
        StoreWrite::Clear { key } => assert_eq!(key, "https://example.com/login"),
        _ => panic!("expected the snapshot to be cleared second"),
    }
}

#[test]
fn write_clone_keeps_the_write() {
    let w = StoreWrite::SetFlag { key: "k".to_string(), value: true };
    assert!(matches!(w.clone(), StoreWrite::SetFlag { key, value: true } if key == "k"));
    let w = StoreWrite::Clear { key: "k".to_string() };
    assert!(matches!(w.clone(), StoreWrite::Clear { key } if key == "k"));
}
