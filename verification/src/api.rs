//! The page session: what happens between the load of a page and the moment
//! its controls are watched.
//!
//! The session decides and the host acts. The host asks the session what it
//! waits for, does that (a read of the store, a look at the page), and
//! reports what came of it; the session answers with the next thing to do.

use crate::capture::{
    bind_targets, capture, captured, invalidate, invalidation, optional_write_view, watched_at,
};
pub use crate::error::Error;
use crate::error::ErrorView;
use crate::keys::{
    answer_view, locate, located, page_key, submitted_flag_key, submitted_key,
    submitted_key_is_reserved, ENABLED,
};
use crate::page::{views, Element};
use crate::restore::{receives, restore, restored};
use crate::snapshot::{snapshot_of, FormSnapshot};
use crate::storage::{
    applied, applied_all, flag_at, merges_into, snapshot_at, write_views, FormField, StoreWrite,
    StoreWriteView, Stored,
};
use vstd::prelude::*;
use vstd::string::*;

verus! {

/// Where a session stands.
#[derive(Debug, Clone, Copy, PartialEq, Eq, Structural)]
pub enum Phase {
    /// Waiting for the global flag that switches auto-save on.
    Gate,
    /// Waiting for the page's origin and pathname.
    Locating,
    /// Waiting for the page's submitted flag.
    CheckingSubmitted,
    /// Waiting for the page's snapshot.
    Loading,
    /// Waiting for the host to restore the snapshot into the page.
    Restoring,
    /// Waiting for the host to attach the listeners.
    Binding,
    /// Done: the page's controls are watched until the page unloads.
    Bound,
    /// Done: auto-save is switched off, and nothing was touched.
    Disabled,
    /// Done: the page's form was submitted, and nothing was restored.
    Submitted,
    /// Done: the start-up sequence failed.
    Failed,
}

/// What the host reports to the session.
#[derive(Debug)]
pub enum Event {
    /// The store answered a read of a flag: its value, or `None` where the
    /// key is missing or holds no boolean.
    Flag(Option<bool>),
    /// A read of the store failed.
    StoreFailed(String),
    /// What the environment answered when asked for the origin and for the
    /// pathname, each with the environment's message where it failed.
    Location { origin: Result<String, String>, pathname: Result<String, String> },
    /// The store answered the read of the snapshot: its fields, or `None`
    /// where the key is missing.
    Snapshot(Option<Vec<FormField>>),
    /// What the store holds under the page key is no snapshot.
    MalformedSnapshot(String),
    /// The host has restored the snapshot into the page.
    Restored,
    /// The host has attached the listeners.
    Bound,
    /// The window has no document.
    NoDocument,
    /// A query of the document failed.
    QueryFailed(String),
    /// A listener could not be attached.
    ListenerFailed(String),
}

/// The mathematical value of an [`Event`].
pub enum EventView {
    Flag(Option<bool>),
    StoreFailed(Seq<char>),
    Location { origin: Result<Seq<char>, Seq<char>>, pathname: Result<Seq<char>, Seq<char>> },
    Snapshot(Option<Map<Seq<char>, Seq<char>>>),
    MalformedSnapshot(Seq<char>),
    Restored,
    Bound,
    NoDocument,
    QueryFailed(Seq<char>),
    ListenerFailed(Seq<char>),
}

impl View for Event {
    type V = EventView;

    open spec fn view(&self) -> EventView {
        match self {
            Event::Flag(flag) => EventView::Flag(*flag),
            Event::StoreFailed(m) => EventView::StoreFailed(m@),
            Event::Location { origin, pathname } => EventView::Location {
                origin: answer_view(*origin),
                pathname: answer_view(*pathname),
            },
            Event::Snapshot(Some(fields)) => EventView::Snapshot(Some(snapshot_of(fields@))),
            Event::Snapshot(None) => EventView::Snapshot(None),
            Event::MalformedSnapshot(m) => EventView::MalformedSnapshot(m@),
            Event::Restored => EventView::Restored,
            Event::Bound => EventView::Bound,
            Event::NoDocument => EventView::NoDocument,
            Event::QueryFailed(m) => EventView::QueryFailed(m@),
            Event::ListenerFailed(m) => EventView::ListenerFailed(m@),
        }
    }
}

/// What the session asks of the host.
#[derive(Debug)]
pub enum Request {
    /// Read the flag under this key, and report `Flag` or `StoreFailed`.
    ReadFlag(String),
    /// Ask the environment for origin and pathname, and report `Location`.
    ReadLocation,
    /// Read the snapshot under this key, and report `Snapshot`,
    /// `MalformedSnapshot` or `StoreFailed`.
    ReadSnapshot(String),
    /// Restore the session's snapshot into the page, and report `Restored`,
    /// `NoDocument` or `QueryFailed`.
    Restore,
    /// Attach the listeners to the controls, and to the forms where `forms`
    /// is set, and report `Bound`, `NoDocument`, `QueryFailed` or
    /// `ListenerFailed`.
    Bind { forms: bool },
    /// Nothing is left to do.
    Done,
    /// Nothing is left to do: the start-up sequence failed, and this is why.
    Fail(Error),
}

/// The mathematical value of a [`Request`].
pub enum RequestView {
    ReadFlag(Seq<char>),
    ReadLocation,
    ReadSnapshot(Seq<char>),
    Restore,
    Bind { forms: bool },
    Done,
    Fail(ErrorView),
}

impl View for Request {
    type V = RequestView;

    open spec fn view(&self) -> RequestView {
        match self {
            Request::ReadFlag(key) => RequestView::ReadFlag(key@),
            Request::ReadLocation => RequestView::ReadLocation,
            Request::ReadSnapshot(key) => RequestView::ReadSnapshot(key@),
            Request::Restore => RequestView::Restore,
            Request::Bind { forms } => RequestView::Bind { forms: *forms },
            Request::Done => RequestView::Done,
            Request::Fail(e) => RequestView::Fail(e@),
        }
    }
}

/// Whether a flag read from the store counts as set: only where the store
/// holds `true` under its key. A key that is missing, or that holds
/// anything but a boolean, counts as `false`.
pub open spec fn flag_is_set(flag: Option<bool>) -> bool {
    flag == Some(true)
}

/// Whether auto-save is switched on, given what the store holds under the
/// key of the enabled flag.
pub fn is_enabled(flag: Option<bool>) -> (on: bool)
    ensures
        on == flag_is_set(flag),
{
    match flag {
        Some(value) => value,
        None => false,
    }
}

/// The mathematical value of an [`Api`].
pub struct ApiView {
    /// Where the session stands.
    pub phase: Phase,
    /// Whether the submission of a form invalidates the page's snapshot.
    pub invalidate_on_submit: bool,
    /// The page key; empty until the page is located.
    pub url: Seq<char>,
    /// The snapshot to restore; empty until one is loaded.
    pub fields: Map<Seq<char>, Seq<char>>,
    /// Why the start-up sequence failed, where it did.
    pub failure: Option<ErrorView>,
    /// Why the stored snapshot was set aside, where it was.
    pub discarded: Option<ErrorView>,
}

impl ApiView {
    /// The session of a page that has just loaded.
    pub open spec fn initial(invalidate_on_submit: bool) -> ApiView {
        ApiView {
            phase: Phase::Gate,
            invalidate_on_submit,
            url: Seq::empty(),
            fields: Map::empty(),
            failure: None,
            discarded: None,
        }
    }

    /// The session moved on to `phase`.
    pub open spec fn at(self, phase: Phase) -> ApiView {
        ApiView { phase, ..self }
    }

    /// The session ended by `error`.
    pub open spec fn failed(self, error: ErrorView) -> ApiView {
        ApiView { phase: Phase::Failed, failure: Some(error), ..self }
    }

    /// Whether the session has come to its end.
    pub open spec fn finished(self) -> bool {
        self.phase == Phase::Bound || self.phase == Phase::Disabled || self.phase
            == Phase::Submitted || self.phase == Phase::Failed
    }

    /// Whether listeners may be attached: from the moment the host is asked
    /// to attach them.
    pub open spec fn listening(self) -> bool {
        self.phase == Phase::Binding || self.phase == Phase::Bound
    }

    /// The session after `event`.
    ///
    /// An event that the phase does not wait for is passed over. A failure of the environment
    /// ends the session; a stored snapshot that cannot be read as one does
    /// not: the page is treated as one of which nothing was saved.
    pub open spec fn next(self, event: EventView) -> ApiView {
        match self.phase {
            Phase::Gate => match event {
                EventView::Flag(flag) => if flag_is_set(flag) {
                    self.at(Phase::Locating)
                } else {
                    self.at(Phase::Disabled)
                },
                EventView::StoreFailed(m) => self.failed(ErrorView::FailedToGetKeyEnabled(m)),
                _ => self,
            },
            Phase::Locating => match event {
                EventView::Location { origin, pathname } => match located(origin, pathname) {
                    Ok(key) => ApiView {
                        phase: if self.invalidate_on_submit {
                            Phase::CheckingSubmitted
                        } else {
                            Phase::Loading
                        },
                        url: key,
                        ..self
                    },
                    Err(error) => self.failed(error),
                },
                _ => self,
            },
            Phase::CheckingSubmitted => match event {
                EventView::Flag(flag) => if flag_is_set(flag) {
                    self.at(Phase::Submitted)
                } else {
                    self.at(Phase::Loading)
                },
                EventView::StoreFailed(m) => self.failed(ErrorView::FailedToGetKeyEnabled(m)),
                _ => self,
            },
            Phase::Loading => match event {
                EventView::Snapshot(Some(fields)) => ApiView {
                    phase: Phase::Restoring,
                    fields,
                    ..self
                },
                EventView::Snapshot(None) => self.at(Phase::Restoring),
                EventView::MalformedSnapshot(m) => ApiView {
                    phase: Phase::Restoring,
                    discarded: Some(ErrorView::FailedToParseFormData(m)),
                    ..self
                },
                EventView::StoreFailed(m) => self.failed(ErrorView::FailedToGetKeyEnabled(m)),
                _ => self,
            },
            Phase::Restoring => match event {
                EventView::Restored => self.at(Phase::Binding),
                EventView::NoDocument => self.failed(ErrorView::NoDocument),
                EventView::QueryFailed(m) => self.failed(ErrorView::FailedToFindElement(m)),
                _ => self,
            },
            Phase::Binding => match event {
                EventView::Bound => self.at(Phase::Bound),
                EventView::NoDocument => self.failed(ErrorView::NoDocument),
                EventView::QueryFailed(m) => self.failed(ErrorView::CannotQueryInputs(m)),
                EventView::ListenerFailed(m) => self.failed(ErrorView::FailedToAttachListener(m)),
                _ => self,
            },
            _ => self,
        }
    }

    /// What the session waits for.
    pub open spec fn pending(self) -> RequestView {
        match self.phase {
            Phase::Gate => RequestView::ReadFlag(ENABLED@),
            Phase::Locating => RequestView::ReadLocation,
            Phase::CheckingSubmitted => RequestView::ReadFlag(submitted_key(self.url)),
            Phase::Loading => RequestView::ReadSnapshot(self.url),
            Phase::Restoring => RequestView::Restore,
            Phase::Binding => RequestView::Bind { forms: self.invalidate_on_submit },
            Phase::Bound | Phase::Disabled | Phase::Submitted => RequestView::Done,
            Phase::Failed => match self.failure {
                Some(error) => RequestView::Fail(error),
                None => RequestView::Done,
            },
        }
    }
}

/// The view of an error that may be absent.
pub open spec fn optional_error_view(error: Option<&Error>) -> Option<ErrorView> {
    match error {
        Some(e) => Some(e@),
        None => None,
    }
}

/// The session of one page load. It is made when the page loads and dropped
/// when the page unloads; the enabled flag is read once in its life.
#[derive(Debug)]
pub struct Api {
    phase: Phase,
    invalidate_on_submit: bool,
    url: String,
    fields: FormSnapshot,
    failure: Option<Error>,
    discarded: Option<Error>,
}

impl View for Api {
    type V = ApiView;

    closed spec fn view(&self) -> ApiView {
        ApiView {
            phase: self.phase,
            invalidate_on_submit: self.invalidate_on_submit,
            url: self.url@,
            fields: self.fields@,
            failure: match self.failure {
                Some(e) => Some(e@),
                None => None,
            },
            discarded: match self.discarded {
                Some(e) => Some(e@),
                None => None,
            },
        }
    }
}

impl Api {
    /// The session of a page that has just loaded. The submission of a form
    /// does not invalidate its snapshot.
    pub fn new() -> (api: Api)
        ensures
            api@ == ApiView::initial(false),
    {
        Api {
            phase: Phase::Gate,
            invalidate_on_submit: false,
            url: String::new(),
            fields: FormSnapshot::new(),
            failure: None,
            discarded: None,
        }
    }

    /// The session of a page that has just loaded, in the mode in which the
    /// submission of a form invalidates the page's snapshot.
    pub fn with_submit_invalidation() -> (api: Api)
        ensures
            api@ == ApiView::initial(true),
    {
        Api {
            phase: Phase::Gate,
            invalidate_on_submit: true,
            url: String::new(),
            fields: FormSnapshot::new(),
            failure: None,
            discarded: None,
        }
    }

    /// Where the session stands.
    pub fn phase(&self) -> (phase: Phase)
        ensures
            phase == self@.phase,
    {
        self.phase
    }

    /// Whether the submission of a form invalidates the page's snapshot.
    pub fn invalidates_on_submit(&self) -> (on: bool)
        ensures
            on == self@.invalidate_on_submit,
    {
        self.invalidate_on_submit
    }

    /// The page key; empty until the page is located.
    pub fn url(&self) -> (url: &String)
        ensures
            url@ == self@.url,
    {
        &self.url
    }

    /// The snapshot to restore; empty until one is loaded.
    pub fn fields(&self) -> (fields: &FormSnapshot)
        ensures
            fields@ == self@.fields,
    {
        &self.fields
    }

    /// Why the start-up sequence failed, where it did.
    pub fn failure(&self) -> (failure: Option<&Error>)
        ensures
            optional_error_view(failure) == self@.failure,
    {
        match &self.failure {
            Some(e) => Some(e),
            None => None,
        }
    }

    /// Why the stored snapshot was set aside, where it was. This does not
    /// end the session; it is there to be logged.
    pub fn discarded(&self) -> (discarded: Option<&Error>)
        ensures
            optional_error_view(discarded) == self@.discarded,
    {
        match &self.discarded {
            Some(e) => Some(e),
            None => None,
        }
    }

    /// Starts the session: tells the host what the session waits for. For a
    /// session that was just made this is the read of the enabled flag.
    pub fn start(&self) -> (request: Request)
        ensures
            request@ == self@.pending(),
    {
        match self.phase {
            Phase::Gate => Request::ReadFlag(String::from_str(ENABLED)),
            Phase::Locating => Request::ReadLocation,
            Phase::CheckingSubmitted => Request::ReadFlag(submitted_flag_key(self.url.as_str())),
            Phase::Loading => Request::ReadSnapshot(self.url.clone()),
            Phase::Restoring => Request::Restore,
            Phase::Binding => Request::Bind { forms: self.invalidate_on_submit },
            Phase::Bound | Phase::Disabled | Phase::Submitted => Request::Done,
            Phase::Failed => match &self.failure {
                Some(error) => Request::Fail(error.clone()),
                None => Request::Done,
            },
        }
    }

    /// Ends the session by `error`.
    fn fail(&mut self, error: Error)
        ensures
            final(self)@ == old(self)@.failed(error@),
    {
        self.phase = Phase::Failed;
        self.failure = Some(error);
    }

    /// Takes in what the host reports and tells it what to do next.
    pub fn step(&mut self, event: Event) -> (request: Request)
        ensures
            final(self)@ == old(self)@.next(event@),
            request@ == final(self)@.pending(),
    {
        match self.phase {
            Phase::Gate => match event {
                Event::Flag(flag) => {
                    self.phase = if is_enabled(flag) {
                        Phase::Locating
                    } else {
                        Phase::Disabled
                    };
                },
                Event::StoreFailed(m) => {
                    self.fail(Error::FailedToGetKeyEnabled(m));
                },
                _ => {},
            },
            Phase::Locating => match event {
                Event::Location { origin, pathname } => match locate(origin, pathname) {
                    Ok(key) => {
                        self.url = key;
                        self.phase = if self.invalidate_on_submit {
                            Phase::CheckingSubmitted
                        } else {
                            Phase::Loading
                        };
                    },
                    Err(error) => {
                        self.fail(error);
                    },
                },
                _ => {},
            },
            Phase::CheckingSubmitted => match event {
                Event::Flag(flag) => {
                    self.phase = if is_enabled(flag) {
                        Phase::Submitted
                    } else {
                        Phase::Loading
                    };
                },
                Event::StoreFailed(m) => {
                    self.fail(Error::FailedToGetKeyEnabled(m));
                },
                _ => {},
            },
            Phase::Loading => match event {
                Event::Snapshot(Some(fields)) => {
                    self.fields = FormSnapshot::from_fields(&fields);
                    self.phase = Phase::Restoring;
                },
                Event::Snapshot(None) => {
                    self.phase = Phase::Restoring;
                },
                Event::MalformedSnapshot(m) => {
                    self.discarded = Some(Error::FailedToParseFormData(m));
                    self.phase = Phase::Restoring;
                },
                Event::StoreFailed(m) => {
                    self.fail(Error::FailedToGetKeyEnabled(m));
                },
                _ => {},
            },
            Phase::Restoring => match event {
                Event::Restored => {
                    self.phase = Phase::Binding;
                },
                Event::NoDocument => {
                    self.fail(Error::NoDocument);
                },
                Event::QueryFailed(m) => {
                    self.fail(Error::FailedToFindElement(m));
                },
                _ => {},
            },
            Phase::Binding => match event {
                Event::Bound => {
                    self.phase = Phase::Bound;
                },
                Event::NoDocument => {
                    self.fail(Error::NoDocument);
                },
                Event::QueryFailed(m) => {
                    self.fail(Error::CannotQueryInputs(m));
                },
                Event::ListenerFailed(m) => {
                    self.fail(Error::FailedToAttachListener(m));
                },
                _ => {},
            },
            _ => {},
        }
        self.start()
    }

    /// Restores the session's snapshot into `page` and returns the places of
    /// the elements whose value it set. Outside the phase in which the
    /// session asks for it, this changes nothing: a session that is switched
    /// off, or whose page was submitted, restores nothing.
    pub fn restore(&self, page: &mut Vec<Element>) -> (written: Vec<usize>)
        ensures
            self@.phase == Phase::Restoring ==> {
                &&& views(final(page)@) == restored(self@.fields, views(old(page)@))
                &&& forall|i: usize|
                    written@.contains(i) <==> receives(self@.fields, views(old(page)@), i as int)
            },
            self@.phase != Phase::Restoring ==> final(page)@ == old(page)@ && written@.len() == 0,
            final(page)@.len() == old(page)@.len(),
            written@.no_duplicates(),
    {
        if self.phase == Phase::Restoring {
            restore(&self.fields, page)
        } else {
            Vec::new()
        }
    }

    /// The places of the elements of `page` to attach listeners to, in
    /// document order. Outside the phase in which the session asks for the
    /// listeners there are none.
    pub fn save(&self, page: &Vec<Element>) -> (targets: Vec<usize>)
        ensures
            forall|i: usize|
                targets@.contains(i) <==> self@.phase == Phase::Binding && watched_at(
                    views(page@),
                    i as int,
                ),
            forall|a: int, b: int| 0 <= a < b < targets@.len() ==> targets@[a] < targets@[b],
    {
        if self.phase == Phase::Binding {
            bind_targets(page)
        } else {
            Vec::new()
        }
    }

    /// The write that an edit of `target` causes: the one field that the
    /// target stands for, merged into the snapshot under the page key. There
    /// is none before the session asks for the listeners, nor after it has
    /// ended otherwise than with the controls watched.
    pub fn capture(&self, target: &Element) -> (write: Option<StoreWrite>)
        ensures
            optional_write_view(write) == (if self@.listening() {
                captured(self@.url, target@)
            } else {
                None
            }),
    {
        if self.phase == Phase::Binding || self.phase == Phase::Bound {
            capture(self.url.as_str(), target)
        } else {
            None
        }
    }

    /// The writes that the submission of a form causes: the page's submitted
    /// flag is set and its snapshot deleted. There are none where the
    /// session does not invalidate on submission, nor where no listeners are
    /// attached.
    pub fn submit(&self) -> (writes: Vec<StoreWrite>)
        ensures
            write_views(writes@) == (if self@.invalidate_on_submit && self@.listening() {
                invalidation(self@.url)
            } else {
                Seq::empty()
            }),
    {
        if self.invalidate_on_submit && (self.phase == Phase::Binding || self.phase
            == Phase::Bound) {
            invalidate(self.url.as_str())
        } else {
            let writes: Vec<StoreWrite> = Vec::new();
            proof {
                assert(write_views(writes@) =~= Seq::<StoreWriteView>::empty());
            }
            writes
        }
    }
}

/// What the session asks of the host, request by request, while the host
/// reports `events` one after another.
pub open spec fn requests(state: ApiView, events: Seq<EventView>) -> Seq<RequestView>
    decreases events.len(),
{
    if events.len() == 0 {
        Seq::empty()
    } else {
        let after = state.next(events.first());
        seq![after.pending()] + requests(after, events.drop_first())
    }
}

/// A session that has come to its end stays as it is, whatever the host
/// reports: it asks for nothing more.
pub proof fn finished_is_final(state: ApiView, events: Seq<EventView>, i: int)
    requires
        state.finished(),
        0 <= i < events.len(),
    ensures
        requests(state, events).len() == events.len(),
        requests(state, events)[i] == state.pending(),
        state.pending() is Done || state.pending() is Fail,
    decreases events.len(),
{
    assert(state.next(events.first()) == state);
    if events.len() > 1 {
        if i > 0 {
            finished_is_final(state, events.drop_first(), i - 1);
        } else {
            finished_is_final(state, events.drop_first(), 0);
        }
    } else {
        assert(requests(state, events.drop_first()) =~= Seq::<RequestView>::empty());
    }
}

/// A session that finds auto-save switched off ends at once: where the
/// enabled flag is `false`, missing or no boolean. Whatever the host reports after
/// that, the session never asks it to read the page's snapshot or
/// submitted flag, to restore, or to attach a listener.
pub proof fn disabled_session_asks_nothing(
    invalidate_on_submit: bool,
    flag: Option<bool>,
    later: Seq<EventView>,
    i: int,
)
    requires
        flag != Some(true),
        0 <= i <= later.len(),
    ensures
        ApiView::initial(invalidate_on_submit).next(EventView::Flag(flag)).phase
            == Phase::Disabled,
        requests(ApiView::initial(invalidate_on_submit), seq![EventView::Flag(flag)] + later)[i]
            == RequestView::Done,
{
    let start = ApiView::initial(invalidate_on_submit);
    let events = seq![EventView::Flag(flag)] + later;
    let off = start.next(EventView::Flag(flag));
    assert(events.first() == EventView::Flag(flag));
    assert(events.drop_first() =~= later);
    if i > 0 {
        finished_is_final(off, later, i - 1);
    }
}

/// The enabled flag is read once. A session that has left its first phase
/// never comes back to it, and never again asks for the enabled flag,
/// whatever the host reports.
pub proof fn enabled_flag_is_read_once(state: ApiView, events: Seq<EventView>, i: int)
    requires
        state.phase != Phase::Gate,
        0 <= i < events.len(),
    ensures
        requests(state, events).len() == events.len(),
        requests(state, events)[i] != RequestView::ReadFlag(ENABLED@),
    decreases events.len(),
{
    let after = state.next(events.first());
    assert(after.phase != Phase::Gate);
    submitted_key_is_reserved(after.url, after.url);
    assert(after.pending() != RequestView::ReadFlag(ENABLED@));
    if events.len() > 1 {
        if i > 0 {
            enabled_flag_is_read_once(after, events.drop_first(), i - 1);
        } else {
            enabled_flag_is_read_once(after, events.drop_first(), 0);
        }
    } else {
        assert(requests(after, events.drop_first()) =~= Seq::<RequestView>::empty());
    }
}

/// The decision to restore has three outcomes. A session whose enabled flag
/// is not set ends switched off. One whose flag is set, in the mode that
/// invalidates on submission, ends as submitted where the page's submitted
/// flag is set, and goes on to load the snapshot where it is not. In the
/// other mode it goes on to load the snapshot without reading that flag.
pub proof fn restore_decision(
    invalidate_on_submit: bool,
    enabled: Option<bool>,
    submitted: Option<bool>,
    origin: Seq<char>,
    pathname: Seq<char>,
)
    ensures
        ({
            let gated = ApiView::initial(invalidate_on_submit).next(EventView::Flag(enabled));
            let located = gated.next(
                EventView::Location { origin: Ok(origin), pathname: Ok(pathname) },
            );
            let decided = located.next(EventView::Flag(submitted));
            &&& !flag_is_set(enabled) ==> gated.phase == Phase::Disabled && decided == gated
            &&& flag_is_set(enabled) ==> located.url == page_key(origin, pathname)
            &&& flag_is_set(enabled) && !invalidate_on_submit ==> located.phase == Phase::Loading
            &&& flag_is_set(enabled) && invalidate_on_submit ==> {
                &&& located.pending() == RequestView::ReadFlag(
                    submitted_key(page_key(origin, pathname)),
                )
                &&& flag_is_set(submitted) ==> decided.phase == Phase::Submitted
                &&& !flag_is_set(submitted) ==> decided.phase == Phase::Loading
            }
        }),
{
}

/// Submission invalidates. Once the writes of a submission have reached the
/// store, the store holds no snapshot under the page key. Writes that save
/// a field of that page afterwards may bring a snapshot back, but they leave
/// the submitted flag set; and a session that reads the flag set ends there,
/// without asking to read the snapshot, to restore, or to attach a listener.
pub proof fn submission_invalidates(
    store: Map<Seq<char>, Stored>,
    origin: Seq<char>,
    pathname: Seq<char>,
    race: Seq<StoreWriteView>,
    later: Seq<EventView>,
    i: int,
)
    requires
        forall|j: int|
            0 <= j < race.len() ==> merges_into(#[trigger] race[j], page_key(origin, pathname)),
        2 <= i < 3 + later.len(),
    ensures
        ({
            let page = page_key(origin, pathname);
            let submitted = applied_all(store, invalidation(page));
            let raced = applied_all(submitted, race);
            let events = seq![
                EventView::Flag(Some(true)),
                EventView::Location { origin: Ok(origin), pathname: Ok(pathname) },
                EventView::Flag(flag_at(raced, submitted_key(page))),
            ] + later;
            &&& !submitted.contains_key(page)
            &&& snapshot_at(submitted, page) is None
            &&& flag_at(raced, submitted_key(page)) == Some(true)
            &&& requests(ApiView::initial(true), events)[i] == RequestView::Done
        }),
{
    let page = page_key(origin, pathname);
    let writes = invalidation(page);
    let submitted = applied_all(store, writes);
    submitted_key_is_reserved(page, page);
    assert(submitted == applied(applied(store, writes[0]), writes[1])) by {
        assert(writes.drop_last() =~= seq![writes[0]]);
        assert(writes.drop_last().drop_last() =~= Seq::<StoreWriteView>::empty());
        assert(applied_all(store, writes.drop_last().drop_last()) == store);
        assert(applied_all(store, writes.drop_last()) == applied(store, writes[0]));
    }
    flag_survives_merges(submitted, page, race);
    let flag = flag_at(applied_all(submitted, race), submitted_key(page));
    let first = EventView::Flag(Some(true));
    let second = EventView::Location { origin: Ok(origin), pathname: Ok(pathname) };
    let third = EventView::Flag(flag);
    let events = seq![first, second, third] + later;
    let located = ApiView::initial(true).next(first);
    let checking = located.next(second);
    let ended = checking.next(third);
    assert(ended.phase == Phase::Submitted);
    assert(events.first() == first);
    assert(events.drop_first().first() == second);
    assert(events.drop_first().drop_first().first() == third);
    let tail = events.drop_first();
    let tail2 = tail.drop_first();
    assert(tail2.drop_first() =~= later);
    assert(requests(ApiView::initial(true), events) == seq![located.pending()] + requests(
        located,
        tail,
    ));
    assert(requests(located, tail) == seq![checking.pending()] + requests(checking, tail2));
    assert(requests(checking, tail2) == seq![ended.pending()] + requests(ended, later));
    if i > 2 {
        finished_is_final(ended, later, i - 3);
    }
}

/// Writes that save fields of a page leave the page's submitted flag as it
/// was.
proof fn flag_survives_merges(
    store: Map<Seq<char>, Stored>,
    page: Seq<char>,
    writes: Seq<StoreWriteView>,
)
    requires
        forall|j: int| 0 <= j < writes.len() ==> merges_into(#[trigger] writes[j], page),
    ensures
        flag_at(applied_all(store, writes), submitted_key(page)) == flag_at(
            store,
            submitted_key(page),
        ),
    decreases writes.len(),
{
    if writes.len() > 0 {
        let front = writes.drop_last();
        assert forall|j: int| 0 <= j < front.len() implies merges_into(
            #[trigger] front[j],
            page,
        ) by {
            assert(merges_into(writes[j], page));
        }
        flag_survives_merges(store, page, front);
        assert(merges_into(writes[writes.len() - 1], page));
        submitted_key_is_reserved(page, page);
    }
}

} // verus!
