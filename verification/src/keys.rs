//! The keys under which the store holds what the engine reads and writes.

use crate::error::{Error, ErrorView};
use vstd::prelude::*;
use vstd::string::*;

verus! {

/// The key of the global flag that switches auto-save on.
pub const ENABLED: &'static str = "enabled";

/// What stands before a page key in the key of that page's submitted flag.
pub const SUBMITTED_PREFIX: &'static str = "submitted:";

/// The key that groups a page's saved fields: its origin followed by its
/// pathname. Neither the query string nor the fragment is part of it.
pub open spec fn page_key(origin: Seq<char>, pathname: Seq<char>) -> Seq<char> {
    origin + pathname
}

/// The key of the flag that says that the page's form was submitted.
pub open spec fn submitted_key(page: Seq<char>) -> Seq<char> {
    SUBMITTED_PREFIX@ + page
}

/// The page key, or the failure to tell it: that of the origin where the
/// origin is not known, else that of the pathname.
pub open spec fn located(
    origin: Result<Seq<char>, Seq<char>>,
    pathname: Result<Seq<char>, Seq<char>>,
) -> Result<Seq<char>, ErrorView> {
    match origin {
        Err(m) => Err(ErrorView::FailedToFindOrigin(m)),
        Ok(o) => match pathname {
            Err(m) => Err(ErrorView::FailedToFindPathname(m)),
            Ok(p) => Ok(page_key(o, p)),
        },
    }
}

/// The view of what the environment answered when asked for a part of the
/// page's location.
pub open spec fn answer_view(answer: Result<String, String>) -> Result<Seq<char>, Seq<char>> {
    match answer {
        Ok(text) => Ok(text@),
        Err(m) => Err(m@),
    }
}

/// The view of a key or of the failure to derive it.
pub open spec fn key_view(key: Result<String, Error>) -> Result<Seq<char>, ErrorView> {
    match key {
        Ok(k) => Ok(k@),
        Err(e) => Err(e@),
    }
}

/// Derives the page key from the page's origin and pathname.
pub fn derive_key(origin: &str, pathname: &str) -> (key: String)
    ensures
        key@ == page_key(origin@, pathname@),
{
    let mut key = String::from_str(origin);
    key.append(pathname);
    key
}

/// Derives the page key from what the environment answered when asked for
/// the origin and for the pathname. A part that it could not tell is a
/// failure of its own kind: a key made of what is left would mix the data
/// of unrelated pages.
pub fn locate(origin: Result<String, String>, pathname: Result<String, String>) -> (key: Result<
    String,
    Error,
>)
    ensures
        key_view(key) == located(answer_view(origin), answer_view(pathname)),
{
    match origin {
        Err(m) => Err(Error::FailedToFindOrigin(m)),
        Ok(o) => match pathname {
            Err(m) => Err(Error::FailedToFindPathname(m)),
            Ok(p) => Ok(derive_key(o.as_str(), p.as_str())),
        },
    }
}

/// The key of the submitted flag of the page whose key is `page`.
pub fn submitted_flag_key(page: &str) -> (key: String)
    ensures
        key@ == submitted_key(page@),
{
    let mut key = String::from_str(SUBMITTED_PREFIX);
    key.append(page);
    key
}

/// Two pages of one origin share a key exactly when they share a pathname.
pub proof fn page_key_tells_paths_apart(origin: Seq<char>, first: Seq<char>, second: Seq<char>)
    ensures
        page_key(origin, first) == page_key(origin, second) <==> first == second,
{
    if page_key(origin, first) == page_key(origin, second) {
        let joined = page_key(origin, first);
        assert(first =~= joined.subrange(origin.len() as int, joined.len() as int));
        assert(second =~= page_key(origin, second).subrange(
            origin.len() as int,
            joined.len() as int,
        ));
    }
}

/// The key of a page's submitted flag is neither the page's own key nor the
/// key of the global flag, and two pages never share it.
pub proof fn submitted_key_is_reserved(page: Seq<char>, other: Seq<char>)
    ensures
        submitted_key(page) != page,
        submitted_key(page) != ENABLED@,
        submitted_key(page) == submitted_key(other) <==> page == other,
{
    reveal_strlit("submitted:");
    reveal_strlit("enabled");
    assert(submitted_key(page).len() == page.len() + 10);
    assert(ENABLED@.len() == 7);
    if submitted_key(page) == submitted_key(other) {
        let joined = submitted_key(page);
        assert(page =~= joined.subrange(10, joined.len() as int));
        assert(other =~= submitted_key(other).subrange(10, joined.len() as int));
    }
}

} // verus!
