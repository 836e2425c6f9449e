//! The closed set of failures that the start-up sequence can end in.

use vstd::prelude::*;
use vstd::string::*;

verus! {

/// A failure of the start-up sequence. Each variant but `NoDocument` carries
/// the message that the environment gave, or an empty one where it gave none.
#[derive(Debug)]
pub enum Error {
    /// A key could not be read from the store.
    FailedToGetKeyEnabled(String),
    /// The environment could not tell the page's origin.
    FailedToFindOrigin(String),
    /// The environment could not tell the page's pathname.
    FailedToFindPathname(String),
    /// What the store holds under the page key is no snapshot.
    FailedToParseFormData(String),
    /// The window has no document.
    NoDocument,
    /// The scan for form controls failed.
    CannotQueryInputs(String),
    /// A listener could not be attached to a control.
    FailedToAttachListener(String),
    /// The lookup of an element by its id failed.
    FailedToFindElement(String),
}

/// The mathematical value of an [`Error`]: its kind and its message.
pub enum ErrorView {
    FailedToGetKeyEnabled(Seq<char>),
    FailedToFindOrigin(Seq<char>),
    FailedToFindPathname(Seq<char>),
    FailedToParseFormData(Seq<char>),
    NoDocument,
    CannotQueryInputs(Seq<char>),
    FailedToAttachListener(Seq<char>),
    FailedToFindElement(Seq<char>),
}

impl ErrorView {
    /// The text that describes this failure: a fixed phrase for the kind,
    /// followed by the environment's message.
    pub open spec fn message(self) -> Seq<char> {
        match self {
            ErrorView::FailedToGetKeyEnabled(m) => "failed to get key from storage: "@ + m,
            ErrorView::FailedToFindOrigin(m) => "failed to find origin: "@ + m,
            ErrorView::FailedToFindPathname(m) => "failed to find pathname: "@ + m,
            ErrorView::FailedToParseFormData(m) => "failed to parse form data: "@ + m,
            ErrorView::NoDocument => "no document"@,
            ErrorView::CannotQueryInputs(m) => "cannot query inputs: "@ + m,
            ErrorView::FailedToAttachListener(m) => "failed to attach listener: "@ + m,
            ErrorView::FailedToFindElement(m) => "failed to find element: "@ + m,
        }
    }
}

impl View for Error {
    type V = ErrorView;

    open spec fn view(&self) -> ErrorView {
        match self {
            Error::FailedToGetKeyEnabled(m) => ErrorView::FailedToGetKeyEnabled(m@),
            Error::FailedToFindOrigin(m) => ErrorView::FailedToFindOrigin(m@),
            Error::FailedToFindPathname(m) => ErrorView::FailedToFindPathname(m@),
            Error::FailedToParseFormData(m) => ErrorView::FailedToParseFormData(m@),
            Error::NoDocument => ErrorView::NoDocument,
            Error::CannotQueryInputs(m) => ErrorView::CannotQueryInputs(m@),
            Error::FailedToAttachListener(m) => ErrorView::FailedToAttachListener(m@),
            Error::FailedToFindElement(m) => ErrorView::FailedToFindElement(m@),
        }
    }
}

/// `phrase` followed by `detail`.
fn describe(phrase: &str, detail: &String) -> (text: String)
    ensures
        text@ == phrase@ + detail@,
{
    let mut text = String::from_str(phrase);
    text.append(detail.as_str());
    text
}

impl Error {
    /// The text that describes this failure.
    pub fn message(&self) -> (text: String)
        ensures
            text@ == self@.message(),
    {
        match self {
            Error::FailedToGetKeyEnabled(m) => describe("failed to get key from storage: ", m),
            Error::FailedToFindOrigin(m) => describe("failed to find origin: ", m),
            Error::FailedToFindPathname(m) => describe("failed to find pathname: ", m),
            Error::FailedToParseFormData(m) => describe("failed to parse form data: ", m),
            Error::NoDocument => String::from_str("no document"),
            Error::CannotQueryInputs(m) => describe("cannot query inputs: ", m),
            Error::FailedToAttachListener(m) => describe("failed to attach listener: ", m),
            Error::FailedToFindElement(m) => describe("failed to find element: ", m),
        }
    }
}

impl Clone for Error {
    fn clone(&self) -> (copy: Error)
        ensures
            copy@ == self@,
    {
        match self {
            Error::FailedToGetKeyEnabled(m) => Error::FailedToGetKeyEnabled(m.clone()),
            Error::FailedToFindOrigin(m) => Error::FailedToFindOrigin(m.clone()),
            Error::FailedToFindPathname(m) => Error::FailedToFindPathname(m.clone()),
            Error::FailedToParseFormData(m) => Error::FailedToParseFormData(m.clone()),
            Error::NoDocument => Error::NoDocument,
            Error::CannotQueryInputs(m) => Error::CannotQueryInputs(m.clone()),
            Error::FailedToAttachListener(m) => Error::FailedToAttachListener(m.clone()),
            Error::FailedToFindElement(m) => Error::FailedToFindElement(m.clone()),
        }
    }
}

} // verus!
