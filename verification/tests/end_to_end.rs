use std::collections::HashMap;

use form_autosave::api::{Api, Event, Phase, Request};
use form_autosave::page::{ControlKind, Element};
use form_autosave::snapshot::FormSnapshot;
use form_autosave::storage::{FormField, StoreWrite};

/// A store in memory that does with a write what the engine takes the
/// host's store to do.
struct MemoryStore {
    flags: HashMap<String, bool>,
    snapshots: HashMap<String, FormSnapshot>,
}

fn empty_store() -> MemoryStore {
    MemoryStore { flags: HashMap::new(), snapshots: HashMap::new() }
}

fn apply(store: &mut MemoryStore, write: StoreWrite) {
    match write {
        StoreWrite::MergeField { key, field } => {
            store.flags.remove(&key);
            store.snapshots.entry(key).or_insert_with(FormSnapshot::new).upsert(field);
        },
        StoreWrite::SetFlag { key, value } => {
            store.snapshots.remove(&key);
            store.flags.insert(key, value);
        },
        StoreWrite::Clear { key } => {
            store.flags.remove(&key);
            store.snapshots.remove(&key);
        },
    }
}

fn stored_fields(store: &MemoryStore, key: &str) -> Option<Vec<FormField>> {
    store.snapshots.get(key).map(|s| s.fields().clone())
}

fn input(id: &str, value: &str) -> Element {
    Element { id: Some(id.to_string()), kind: Some(ControlKind::Input), value: value.to_string() }
}

/// Loads the page: runs a session against the store and the page as a host
/// would, and hands the session back.
fn load(mut api: Api, store: &MemoryStore, page: &mut Vec<Element>) -> Api {
    let mut request = api.start();
    let mut rounds = 0;
    loop {
        rounds += 1;
        assert!(rounds < 20, "the session does not come to an end");
        let event = match request {
            Request::ReadFlag(key) => Event::Flag(store.flags.get(&key).copied()),
            Request::ReadLocation => Event::Location {
                origin: Ok("https://example.com".to_string()),
                pathname: Ok("/form".to_string()),
            },
            Request::ReadSnapshot(key) => Event::Snapshot(stored_fields(store, &key)),
            Request::Restore => {
                api.restore(page);
                Event::Restored
            },
            Request::Bind { .. } => {
                api.save(page);
                Event::Bound
            },
            Request::Done => return api,
            Request::Fail(e) => panic!("the session failed: {}", e.message()),
        };
        request = api.step(event);
    }
}

#[test]
fn typed_values_come_back_after_a_reload() {
    let key = "https://example.com/form";
    let mut store = empty_store();
    store.flags.insert("enabled".to_string(), true);

    let mut page = vec![input("email", ""), input("name", "")];
    let api = load(Api::new(), &store, &mut page);
    assert_eq!(api.phase(), Phase::Bound);
    assert_eq!(api.url(), key);
    assert!(stored_fields(&store, key).is_none());

    // The user types into `email`.
    page[0].value = "a@b.com".to_string();
    let write = api.capture(&page[0]).expect("the edit is captured");
    apply(&mut store, write);
    let snapshot = store.snapshots.get(key).expect("the snapshot exists");
    assert_eq!(snapshot.len(), 1);
    assert_eq!(snapshot.get("email").map(|v| v.as_str()), Some("a@b.com"));

    // The user types into `name`.
    page[1].value = "Jo".to_string();
    let write = api.capture(&page[1]).expect("the edit is captured");
    apply(&mut store, write);
    let snapshot = store.snapshots.get(key).expect("the snapshot exists");
    assert_eq!(snapshot.len(), 2);
    assert_eq!(snapshot.get("email").map(|v| v.as_str()), Some("a@b.com"));
    assert_eq!(snapshot.get("name").map(|v| v.as_str()), Some("Jo"));

    // The page reloads with both inputs empty.
    let mut reloaded = vec![input("email", ""), input("name", "")];
    let api = load(Api::new(), &store, &mut reloaded);
    assert_eq!(api.phase(), Phase::Bound);
    assert_eq!(reloaded[0].value, "a@b.com");
    assert_eq!(reloaded[1].value, "Jo");
}

#[test]
fn nothing_is_read_or_restored_while_disabled() {
    let mut store = empty_store();
    apply(
        &mut store,
        StoreWrite::MergeField {
            key: "https://example.com/form".to_string(),
            field: FormField { name: "email".to_string(), value: "a@b.com".to_string() },
        },
    );
    let mut page = vec![input("email", "")];
    let api = load(Api::new(), &store, &mut page);
    assert_eq!(api.phase(), Phase::Disabled);
    assert_eq!(api.url(), "");
    assert_eq!(page[0].value, "");

    store.flags.insert("enabled".to_string(), false);
    let api = load(Api::new(), &store, &mut page);
    assert_eq!(api.phase(), Phase::Disabled);
    assert_eq!(page[0].value, "");
}

#[test]
fn a_submitted_form_does_not_come_back() {
    let key = "https://example.com/form";
    let mut store = empty_store();
    store.flags.insert("enabled".to_string(), true);

    let mut page = vec![input("email", "")];
    let api = load(Api::with_submit_invalidation(), &store, &mut page);
    assert_eq!(api.phase(), Phase::Bound);
    page[0].value = "a@b.com".to_string();
    apply(&mut store, api.capture(&page[0]).expect("the edit is captured"));
    assert!(store.snapshots.contains_key(key));

    // The form is submitted.
    for write in api.submit() {
        apply(&mut store, write);
    }
    assert!(!store.snapshots.contains_key(key));
    assert_eq!(store.flags.get("submitted:https://example.com/form"), Some(&true));

    // A write that was under way arrives late and brings the snapshot back.
    apply(&mut store, api.capture(&page[0]).expect("the edit is captured"));
    assert!(store.snapshots.contains_key(key));
    assert_eq!(store.flags.get("submitted:https://example.com/form"), Some(&true));

    // The next load restores nothing all the same.
    let mut reloaded = vec![input("email", "")];
    let api = load(Api::with_submit_invalidation(), &store, &mut reloaded);
    assert_eq!(api.phase(), Phase::Submitted);
    assert_eq!(reloaded[0].value, "");
    assert_eq!(api.fields().len(), 0);
}

#[test]
fn an_edit_of_one_field_leaves_the_others_in_the_store() {
    let key = "https://example.com/form";
    let mut store = empty_store();
    store.flags.insert("enabled".to_string(), true);
    let mut page = vec![input("a", ""), input("b", "")];
    let api = load(Api::new(), &store, &mut page);

    page[1].value = "kept".to_string();
    apply(&mut store, api.capture(&page[1]).expect("the edit is captured"));
    page[0].value = "1".to_string();
    apply(&mut store, api.capture(&page[0]).expect("the edit is captured"));
    page[0].value = "12".to_string();
    apply(&mut store, api.capture(&page[0]).expect("the edit is captured"));

    let snapshot = store.snapshots.get(key).expect("the snapshot exists");
    assert_eq!(snapshot.get("b").map(|v| v.as_str()), Some("kept"));
    assert_eq!(snapshot.get("a").map(|v| v.as_str()), Some("12"));
    assert_eq!(snapshot.len(), 2);
}

#[test]
fn a_reload_does_not_overwrite_autofilled_text() {
    let mut store = empty_store();
    store.flags.insert("enabled".to_string(), true);
    apply(
        &mut store,
        StoreWrite::MergeField {
            key: "https://example.com/form".to_string(),
            field: FormField { name: "email".to_string(), value: "stale@b.com".to_string() },
        },
    );
    let mut page = vec![input("email", "autofilled@b.com")];
    let api = load(Api::new(), &store, &mut page);
    assert_eq!(api.phase(), Phase::Bound);
    assert_eq!(page[0].value, "autofilled@b.com");
}
