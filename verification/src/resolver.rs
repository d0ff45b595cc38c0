//! How the answer for a word is obtained: from the disk where it was kept,
//! else from the service, and then kept on disk. The resolver decides; the
//! caller does what it is told and reports what happened.

use crate::address::{request_url, url_of};
use crate::cache::{cache_location, location_of, CacheLocation, CacheLocationView};
use crate::document::{Document, DocumentView};
use crate::json::{answer_view, decode, decoded, Decoded, DecodedView};
use vstd::prelude::*;

verus! {

/// Why a lookup gave no answer.
#[derive(Debug, Clone, Copy, PartialEq, Eq, Structural)]
pub enum LookupError {
    /// The service could not be asked, or did not answer.
    Network,
    /// What was read is no JSON text.
    Parse,
    /// The disk refused to read, to make the directory or to write.
    Filesystem,
    /// The answer could not be written out as text.
    Encode,
    /// An event was reported that answers nothing the resolver asked for.
    OutOfTurn,
}

/// What the caller is told to do next.
#[derive(Debug, PartialEq, Eq)]
pub enum Action {
    /// Read the file at `location`, if there is one.
    ReadCache { location: CacheLocation },
    /// Make the directory of `location`, with all above it.
    CreateDirectory { location: CacheLocation },
    /// Ask the service at `url`.
    Fetch { url: String },
    /// Write `contents` to the file at `location`.
    WriteCache { location: CacheLocation, contents: String },
    /// The lookup is over: this is the answer.
    Finish { document: Document },
    /// The lookup is over: there is no answer.
    Fail { error: LookupError },
}

/// The mathematical value of an [`Action`].
pub enum ActionView {
    ReadCache { location: CacheLocationView },
    CreateDirectory { location: CacheLocationView },
    Fetch { url: Seq<char> },
    WriteCache { location: CacheLocationView, contents: Seq<char> },
    Finish { document: DocumentView },
    Fail { error: LookupError },
}

impl View for Action {
    type V = ActionView;

    open spec fn view(&self) -> ActionView {
        match self {
            Action::ReadCache { location } => ActionView::ReadCache { location: location@ },
            Action::CreateDirectory { location } => ActionView::CreateDirectory {
                location: location@,
            },
            Action::Fetch { url } => ActionView::Fetch { url: url@ },
            Action::WriteCache { location, contents } => ActionView::WriteCache {
                location: location@,
                contents: contents@,
            },
            Action::Finish { document } => ActionView::Finish { document: document@ },
            Action::Fail { error } => ActionView::Fail { error: *error },
        }
    }
}

/// What the caller reports back.
#[derive(Debug, PartialEq, Eq)]
pub enum Event {
    /// The cache file was there; what reading it as JSON gave.
    CacheFound { answer: Option<Decoded> },
    /// There is no cache file.
    CacheAbsent,
    /// The directory is there now.
    DirectoryReady,
    /// The service answered; what reading its answer as JSON gave.
    Response { answer: Option<Decoded> },
    /// The file is written.
    Stored,
    /// The last action could not be carried out.
    Failed,
}

/// The mathematical value of an [`Event`].
pub enum EventView {
    CacheFound { answer: Option<DecodedView> },
    CacheAbsent,
    DirectoryReady,
    Response { answer: Option<DecodedView> },
    Stored,
    Failed,
}

impl View for Event {
    type V = EventView;

    open spec fn view(&self) -> EventView {
        match self {
            Event::CacheFound { answer } => EventView::CacheFound { answer: answer_view(*answer) },
            Event::CacheAbsent => EventView::CacheAbsent,
            Event::DirectoryReady => EventView::DirectoryReady,
            Event::Response { answer } => EventView::Response { answer: answer_view(*answer) },
            Event::Stored => EventView::Stored,
            Event::Failed => EventView::Failed,
        }
    }
}

impl Event {
    /// The event for a cache file that holds `contents`.
    pub fn cache_found(contents: &[u8]) -> (event: Event)
        ensures
            event@ == (EventView::CacheFound { answer: decoded(contents@) }),
    {
        Event::CacheFound { answer: decode(contents) }
    }

    /// The event for an answer of the service with the body `body`.
    pub fn response(body: &[u8]) -> (event: Event)
        ensures
            event@ == (EventView::Response { answer: decoded(body@) }),
    {
        Event::Response { answer: decode(body) }
    }
}

/// What the resolver waits for.
#[derive(Debug, PartialEq, Eq)]
pub enum Phase {
    /// Whether the cache file is there.
    Probing,
    /// The directory of the cache file.
    Preparing,
    /// The answer of the service.
    Fetching,
    /// The cache file to be written; the answer is held meanwhile.
    Storing { document: Document },
    /// Nothing: the lookup is over.
    Finished,
}

/// The mathematical value of a [`Phase`].
pub enum PhaseView {
    Probing,
    Preparing,
    Fetching,
    Storing { document: DocumentView },
    Finished,
}

impl View for Phase {
    type V = PhaseView;

    open spec fn view(&self) -> PhaseView {
        match self {
            Phase::Probing => PhaseView::Probing,
            Phase::Preparing => PhaseView::Preparing,
            Phase::Fetching => PhaseView::Fetching,
            Phase::Storing { document } => PhaseView::Storing { document: document@ },
            Phase::Finished => PhaseView::Finished,
        }
    }
}

/// A lookup under way.
#[derive(Debug, PartialEq, Eq)]
pub struct Resolver {
    /// The word, as it was given.
    pub word: String,
    /// Whether answers are kept on disk.
    pub caching: bool,
    pub phase: Phase,
}

/// The mathematical value of a [`Resolver`].
pub struct ResolverView {
    pub word: Seq<char>,
    pub caching: bool,
    pub phase: PhaseView,
}

impl View for Resolver {
    type V = ResolverView;

    open spec fn view(&self) -> ResolverView {
        ResolverView { word: self.word@, caching: self.caching, phase: self.phase@ }
    }
}

impl ResolverView {
    /// This lookup, waiting for something else.
    pub open spec fn at(self, phase: PhaseView) -> ResolverView {
        ResolverView { phase, ..self }
    }

    /// This lookup ended without an answer.
    pub open spec fn failed(self, error: LookupError) -> (ResolverView, ActionView) {
        (self.at(PhaseView::Finished), ActionView::Fail { error })
    }

    /// This lookup ended with `document` as its answer.
    pub open spec fn finished(self, document: DocumentView) -> (ResolverView, ActionView) {
        (self.at(PhaseView::Finished), ActionView::Finish { document })
    }
}

/// How a lookup of `word` begins: with caching by looking on disk, without
/// it by asking the service.
pub open spec fn beginning(word: Seq<char>, caching: bool) -> (ResolverView, ActionView) {
    if caching {
        (
            ResolverView { word, caching, phase: PhaseView::Probing },
            ActionView::ReadCache { location: location_of(word) },
        )
    } else {
        (
            ResolverView { word, caching, phase: PhaseView::Fetching },
            ActionView::Fetch { url: url_of(word) },
        )
    }
}

/// How a lookup goes on when `event` is reported.
///
/// A cache file that is there is the answer, and one that is no JSON ends
/// the lookup. Without a cache file the directory is made and the service is
/// asked. An answer that is no JSON ends the lookup. With caching a good
/// answer is written to disk, pretty-printed, before it is handed out;
/// without caching it is handed out at once. An action that failed ends the
/// lookup, and so does an event that nothing asked for.
pub open spec fn next(state: ResolverView, event: EventView) -> (ResolverView, ActionView) {
    match (state.phase, event) {
        (PhaseView::Probing, EventView::CacheFound { answer: Some(found) }) => state.finished(
            found.document,
        ),
        (PhaseView::Probing, EventView::CacheFound { answer: None }) => state.failed(
            LookupError::Parse,
        ),
        (PhaseView::Probing, EventView::CacheAbsent) => (
            state.at(PhaseView::Preparing),
            ActionView::CreateDirectory { location: location_of(state.word) },
        ),
        (PhaseView::Probing, EventView::Failed) => state.failed(LookupError::Filesystem),
        (PhaseView::Preparing, EventView::DirectoryReady) => (
            state.at(PhaseView::Fetching),
            ActionView::Fetch { url: url_of(state.word) },
        ),
        (PhaseView::Preparing, EventView::Failed) => state.failed(LookupError::Filesystem),
        (PhaseView::Fetching, EventView::Response { answer: Some(found) }) => if state.caching {
            match found.pretty {
                Some(contents) => (
                    state.at(PhaseView::Storing { document: found.document }),
                    ActionView::WriteCache { location: location_of(state.word), contents },
                ),
                None => state.failed(LookupError::Encode),
            }
        } else {
            state.finished(found.document)
        },
        (PhaseView::Fetching, EventView::Response { answer: None }) => state.failed(
            LookupError::Parse,
        ),
        (PhaseView::Fetching, EventView::Failed) => state.failed(LookupError::Network),
        (PhaseView::Storing { document }, EventView::Stored) => state.finished(document),
        (PhaseView::Storing { .. }, EventView::Failed) => state.failed(LookupError::Filesystem),
        _ => state.failed(LookupError::OutOfTurn),
    }
}

impl Resolver {
    /// Begins the lookup of `word` and says what to do first.
    pub fn begin(word: &str, caching: bool) -> (start: (Resolver, Action))
        ensures
            (start.0@, start.1@) == beginning(word@, caching),
    {
        if caching {
            (
                Resolver { word: word.to_owned(), caching, phase: Phase::Probing },
                Action::ReadCache { location: cache_location(word) },
            )
        } else {
            (
                Resolver { word: word.to_owned(), caching, phase: Phase::Fetching },
                Action::Fetch { url: request_url(word) },
            )
        }
    }

    /// Takes in what the caller reports and says what to do next.
    pub fn step(self, event: Event) -> (step: (Resolver, Action))
        ensures
            (step.0@, step.1@) == next(self@, event@),
    {
        let Resolver { word, caching, phase } = self;
        let (phase, action) = match (phase, event) {
            (Phase::Probing, Event::CacheFound { answer: Some(found) }) => (
                Phase::Finished,
                Action::Finish { document: found.document },
            ),
            (Phase::Probing, Event::CacheFound { answer: None }) => (
                Phase::Finished,
                Action::Fail { error: LookupError::Parse },
            ),
            (Phase::Probing, Event::CacheAbsent) => (
                Phase::Preparing,
                Action::CreateDirectory { location: cache_location(word.as_str()) },
            ),
            (Phase::Probing, Event::Failed) => (
                Phase::Finished,
                Action::Fail { error: LookupError::Filesystem },
            ),
            (Phase::Preparing, Event::DirectoryReady) => (
                Phase::Fetching,
                Action::Fetch { url: request_url(word.as_str()) },
            ),
            (Phase::Preparing, Event::Failed) => (
                Phase::Finished,
                Action::Fail { error: LookupError::Filesystem },
            ),
            (Phase::Fetching, Event::Response { answer: Some(found) }) => if caching {
                match found.pretty {
                    Some(contents) => (
                        Phase::Storing { document: found.document },
                        Action::WriteCache { location: cache_location(word.as_str()), contents },
                    ),
                    None => (Phase::Finished, Action::Fail { error: LookupError::Encode }),
                }
            } else {
                (Phase::Finished, Action::Finish { document: found.document })
            },
            (Phase::Fetching, Event::Response { answer: None }) => (
                Phase::Finished,
                Action::Fail { error: LookupError::Parse },
            ),
            (Phase::Fetching, Event::Failed) => (
                Phase::Finished,
                Action::Fail { error: LookupError::Network },
            ),
            (Phase::Storing { document }, Event::Stored) => (
                Phase::Finished,
                Action::Finish { document },
            ),
            (Phase::Storing { .. }, Event::Failed) => (
                Phase::Finished,
                Action::Fail { error: LookupError::Filesystem },
            ),
            _ => (Phase::Finished, Action::Fail { error: LookupError::OutOfTurn }),
        };
        (Resolver { word, caching, phase }, action)
    }
}

/// The actions that a lookup in `state` gives when `events` are reported one
/// after another.
pub open spec fn actions(state: ResolverView, events: Seq<EventView>) -> Seq<ActionView>
    decreases events.len(),
{
    if events.len() == 0 {
        Seq::empty()
    } else {
        let (after, action) = next(state, events[0]);
        seq![action] + actions(after, events.drop_first())
    }
}

/// A lookup that is over tells the caller nothing more to do, whatever is
/// reported.
pub proof fn lemma_over_stays_over(state: ResolverView, events: Seq<EventView>)
    requires
        state.phase is Finished,
    ensures
        actions(state, events).len() == events.len(),
        forall|i: int|
            0 <= i < events.len() ==> #[trigger] actions(state, events)[i] == (ActionView::Fail {
                error: LookupError::OutOfTurn,
            }),
    decreases events.len(),
{
    if events.len() > 0 {
        lemma_over_stays_over(next(state, events[0]).0, events.drop_first());
    }
}

/// How often `actions` ask the service.
pub open spec fn requests(actions: Seq<ActionView>) -> nat
    decreases actions.len(),
{
    if actions.len() == 0 {
        0
    } else if actions[0] is Fetch {
        1 + requests(actions.drop_first())
    } else {
        requests(actions.drop_first())
    }
}

/// A lookup that has not asked the service yet asks it at most once from
/// here on, and one that has asked never asks again.
pub proof fn lemma_requests_left(state: ResolverView, events: Seq<EventView>)
    ensures
        requests(actions(state, events)) <= 1,
        !(state.phase is Probing || state.phase is Preparing) ==> requests(actions(state, events))
            == 0,
    decreases events.len(),
{
    if events.len() > 0 {
        let (after, action) = next(state, events[0]);
        let rest = actions(after, events.drop_first());
        lemma_requests_left(after, events.drop_first());
        assert((seq![action] + rest).drop_first() == rest);
    }
}

/// From its beginning a lookup asks the service at most once, whatever is
/// reported to it.
pub proof fn law_at_most_one_request(word: Seq<char>, caching: bool, events: Seq<EventView>)
    ensures
        requests(seq![beginning(word, caching).1] + actions(beginning(word, caching).0, events))
            <= 1,
{
    let (start, first) = beginning(word, caching);
    let rest = actions(start, events);
    lemma_requests_left(start, events);
    assert((seq![first] + rest).drop_first() == rest);
}

/// With caching and no cache file, a good answer of the service is written
/// to the place that the word alone decides, as its pretty-printed text, and
/// is handed out once that is done.
pub proof fn law_miss_keeps_the_answer(
    word: Seq<char>,
    body: Seq<u8>,
    found: DecodedView,
    contents: Seq<char>,
)
    requires
        decoded(body) == Some(found),
        found.pretty == Some(contents),
    ensures
        beginning(word, true).1 == (ActionView::ReadCache { location: location_of(word) }),
        actions(
            beginning(word, true).0,
            seq![
                EventView::CacheAbsent,
                EventView::DirectoryReady,
                EventView::Response { answer: decoded(body) },
                EventView::Stored,
            ],
        ) == seq![
            ActionView::CreateDirectory { location: location_of(word) },
            ActionView::Fetch { url: url_of(word) },
            ActionView::WriteCache { location: location_of(word), contents },
            ActionView::Finish { document: found.document },
        ],
{
    let events = seq![
        EventView::CacheAbsent,
        EventView::DirectoryReady,
        EventView::Response { answer: decoded(body) },
        EventView::Stored,
    ];
    let s0 = beginning(word, true).0;
    let s1 = next(s0, events[0]).0;
    let s2 = next(s1, events[1]).0;
    let s3 = next(s2, events[2]).0;
    let s4 = next(s3, events[3]).0;
    let e1 = events.drop_first();
    let e2 = e1.drop_first();
    let e3 = e2.drop_first();
    let e4 = e3.drop_first();
    assert(e4.len() == 0);
    assert(actions(s4, e4) == Seq::<ActionView>::empty());
    assert(actions(s3, e3) == seq![next(s3, events[3]).1]);
    assert(actions(s2, e2) == seq![next(s2, events[2]).1, next(s3, events[3]).1]);
    assert(actions(s1, e1) == seq![
        next(s1, events[1]).1,
        next(s2, events[2]).1,
        next(s3, events[3]).1,
    ]);
}

/// With caching, a lookup that finds the cache file hands out what the file
/// holds, and never asks the service, whatever is reported afterwards.
pub proof fn law_hit_asks_no_service(word: Seq<char>, file: Seq<u8>, later: Seq<EventView>)
    ensures
        beginning(word, true).1 == (ActionView::ReadCache { location: location_of(word) }),
        next(beginning(word, true).0, EventView::CacheFound { answer: decoded(file) }).1 == match decoded(
            file,
        ) {
            Some(found) => ActionView::Finish { document: found.document },
            None => ActionView::Fail { error: LookupError::Parse },
        },
        forall|i: int|
            0 <= i <= later.len() ==> !(#[trigger] actions(
                beginning(word, true).0,
                seq![EventView::CacheFound { answer: decoded(file) }] + later,
            )[i] is Fetch),
{
    let start = beginning(word, true).0;
    let hit = EventView::CacheFound { answer: decoded(file) };
    let events = seq![hit] + later;
    let over = next(start, hit).0;
    assert(events[0] == hit);
    assert(events.drop_first() == later);
    lemma_over_stays_over(over, later);
    assert(actions(start, events) == seq![next(start, hit).1] + actions(over, later));
}

} // verus!
