use form_autosave::error::Error;
use form_autosave::keys::{derive_key, locate, submitted_flag_key, ENABLED, SUBMITTED_PREFIX};

#[test]
fn key_is_origin_followed_by_pathname() {
    assert_eq!(derive_key("https://example.com", "/login"), "https://example.com/login");
}

#[test]
fn key_ignores_the_query_string() {
    // Two loads of one page, `?x=1` and `?x=2`: the query is no part of
    // what the key is derived from.
    let first = derive_key("https://example.com", "/login");
    let second = derive_key("https://example.com", "/login");
    assert_eq!(first, second);
}

#[test]
fn key_differs_between_paths() {
    assert_ne!(
        derive_key("https://example.com", "/login"),
        derive_key("https://example.com", "/signup")
    );
}

#[test]
fn key_of_empty_parts_is_empty() {
    assert_eq!(derive_key("", ""), "");
    assert_eq!(derive_key("https://example.com", ""), "https://example.com");
}

#[test]
fn locate_joins_what_the_environment_told() {
    let key = locate(Ok("https://example.com".to_string()), Ok("/login".to_string()));
    match key {
        Ok(k) => assert_eq!(k, "https://example.com/login"),
        Err(e) => panic!("unexpected failure: {}", e.message()),
    }
}

#[test]
fn locate_fails_on_unknown_origin() {
    let key = locate(Err("denied".to_string()), Ok("/login".to_string()));
    match key {
        Err(Error::FailedToFindOrigin(m)) => assert_eq!(m, "denied"),
        _ => panic!("expected the failure of the origin"),
    }
}

#[test]
fn locate_fails_on_unknown_pathname() {
    let key = locate(Ok("https://example.com".to_string()), Err("gone".to_string()));
    match key {
        Err(Error::FailedToFindPathname(m)) => assert_eq!(m, "gone"),
        _ => panic!("expected the failure of the pathname"),
    }
}

#[test]
fn locate_reports_the_origin_first() {
    let key = locate(Err("a".to_string()), Err("b".to_string()));
    match key {
        Err(Error::FailedToFindOrigin(m)) => assert_eq!(m, "a"),
        _ => panic!("expected the failure of the origin"),
    }
}

#[test]
fn reserved_keys() {
    assert_eq!(ENABLED, "enabled");
    assert_eq!(SUBMITTED_PREFIX, "submitted:");
    assert_eq!(
        submitted_flag_key("https://example.com/login"),
        "submitted:https://example.com/login"
    );
}

#[test]
fn submitted_key_is_no_page_key_of_that_page() {
    let page = derive_key("https://example.com", "/login");
    assert_ne!(submitted_flag_key(&page), page);
    assert_ne!(submitted_flag_key(&page), ENABLED);
    assert_ne!(submitted_flag_key(""), ENABLED);
}

#[test]
fn messages_of_all_failures() {
    assert_eq!(
        Error::FailedToGetKeyEnabled("x".to_string()).message(),
        "failed to get key from storage: x"
    );
    assert_eq!(Error::FailedToFindOrigin("x".to_string()).message(), "failed to find origin: x");
    assert_eq!(
        Error::FailedToFindPathname("x".to_string()).message(),
        "failed to find pathname: x"
    );
    assert_eq!(
        Error::FailedToParseFormData("x".to_string()).message(),
        "failed to parse form data: x"
    );
    assert_eq!(Error::NoDocument.message(), "no document");
    assert_eq!(Error::CannotQueryInputs("x".to_string()).message(), "cannot query inputs: x");
    assert_eq!(
        Error::FailedToAttachListener("x".to_string()).message(),
        "failed to attach listener: x"
    );
    assert_eq!(
        Error::FailedToFindElement("x".to_string()).message(),
        "failed to find element: x"
    );
}

#[test]
fn message_without_detail() {
    assert_eq!(Error::FailedToFindOrigin(String::new()).message(), "failed to find origin: ");
}

#[test]
fn error_clone_keeps_kind_and_message() {
    let e = Error::CannotQueryInputs("bad selector".to_string());
    match e.clone() {
        Error::CannotQueryInputs(m) => assert_eq!(m, "bad selector"),
        _ => panic!("the copy is of another kind"),
    }
    assert!(matches!(Error::NoDocument.clone(), Error::NoDocument));
}
