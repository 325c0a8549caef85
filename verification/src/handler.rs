//! The connection handler: one connection from accept to close.
//!
//! The handler never touches a socket or the filesystem. It is told what
//! happened as an [`Event`] and answers with the next [`Action`] to perform,
//! so every decision of the server is made here and none by its caller.

use crate::config::{Args, ArgsView};
use crate::request::{parse_request, parsed, ParseError, ParseErrorView, Request, RequestView};
use crate::resolver::{
    classified, classify, is_within, target_of, target_path, CanonicalPath, Outcome, OutcomeView,
    Resolution, ResolutionView,
};
use crate::response::{bytes_view, Response, ResponseView};
use vstd::prelude::*;
use vstd::string::StrSliceExecFns;

verus! {

/// Which file a connection in [`Stage::Building`] is waiting for.
#[derive(Clone, Copy, Debug, PartialEq, Eq, Structural)]
pub enum Source {
    /// The file that the request resolved to.
    Target,
    /// The fallback page of the root.
    Fallback,
}

/// How far a connection has come. A connection only ever moves forward.
#[derive(Clone, Copy, Debug, PartialEq, Eq, Structural)]
pub enum Stage {
    /// Accepted; nothing has been asked of it yet.
    Accepted,
    /// Waiting for the request line.
    Parsing,
    /// Waiting for the canonical form of the target.
    Resolving,
    /// Waiting for the bytes of the body.
    Building(Source),
    /// Waiting for the response to be written.
    Writing,
    /// Done; the connection is to be closed.
    Closed,
}

impl Stage {
    /// The place of a stage in the life of a connection.
    pub open spec fn rank(self) -> nat {
        match self {
            Stage::Accepted => 0,
            Stage::Parsing => 1,
            Stage::Resolving => 2,
            Stage::Building(Source::Target) => 3,
            Stage::Building(Source::Fallback) => 4,
            Stage::Writing => 5,
            Stage::Closed => 6,
        }
    }
}

/// What happened on a connection since the last action was handed out.
#[derive(Clone, Debug, PartialEq, Eq)]
pub enum Event {
    /// The connection was accepted.
    Accepted,
    /// Text was read from the connection: everything up to and including the
    /// first line terminator, or up to the end of the stream if that came first.
    Received(String),
    /// The filesystem answered a [`Action::Canonicalize`].
    Resolved(Resolution),
    /// A read finished: the bytes of the file, or `None` on any failure.
    Loaded(Option<Vec<u8>>),
    /// The response was written and flushed.
    Written,
    /// The connection broke.
    Failed,
}

/// The mathematical content of an [`Event`].
pub enum EventView {
    Accepted,
    Received(Seq<char>),
    Resolved(ResolutionView),
    Loaded(Option<Seq<u8>>),
    Written,
    Failed,
}

impl View for Event {
    type V = EventView;

    open spec fn view(&self) -> EventView {
        match self {
            Event::Accepted => EventView::Accepted,
            Event::Received(input) => EventView::Received(input@),
            Event::Resolved(resolution) => EventView::Resolved(resolution@),
            Event::Loaded(bytes) => EventView::Loaded(bytes_view(*bytes)),
            Event::Written => EventView::Written,
            Event::Failed => EventView::Failed,
        }
    }
}

/// What the caller is to do next for a connection.
#[derive(Clone, Debug, PartialEq, Eq)]
pub enum Action {
    /// Read from the connection up to the first line terminator.
    ReadLine,
    /// Resolve `target`, taken relative to the root, to its canonical
    /// absolute form, following symbolic links.
    Canonicalize { target: String },
    /// Read the file at `path`.
    ReadFile { path: CanonicalPath },
    /// Read the fallback page of the root,
    /// [`FALLBACK_PAGE`](crate::resolver::FALLBACK_PAGE).
    ReadFallback,
    /// Write `response` to the connection and flush.
    Write { response: Response },
    /// Close the connection.
    Close,
}

/// The mathematical content of an [`Action`].
pub enum ActionView {
    ReadLine,
    Canonicalize { target: Seq<char> },
    ReadFile { path: Seq<Seq<u8>> },
    ReadFallback,
    Write { response: ResponseView },
    Close,
}

impl View for Action {
    type V = ActionView;

    open spec fn view(&self) -> ActionView {
        match self {
            Action::ReadLine => ActionView::ReadLine,
            Action::Canonicalize { target } => ActionView::Canonicalize { target: target@ },
            Action::ReadFile { path } => ActionView::ReadFile { path: path@ },
            Action::ReadFallback => ActionView::ReadFallback,
            Action::Write { response } => ActionView::Write { response: response@ },
            Action::Close => ActionView::Close,
        }
    }
}

/// The state of one connection.
#[derive(Clone, Debug, PartialEq, Eq)]
pub struct Connection {
    pub stage: Stage,
    /// The request, once one has been parsed; kept for diagnostics.
    pub request: Option<Request>,
}

/// The mathematical content of a [`Connection`].
pub struct ConnectionView {
    pub stage: Stage,
    pub request: Option<RequestView>,
}

impl View for Connection {
    type V = ConnectionView;

    open spec fn view(&self) -> ConnectionView {
        ConnectionView {
            stage: self.stage,
            request: match self.request {
                Some(request) => Some(request@),
                None => None,
            },
        }
    }
}

/// The decision for a parsed request: any method but `GET` is answered at
/// once; a `GET` goes on to the lookup of its target.
pub open spec fn prepared(request: RequestView, args: ArgsView) -> (Stage, ActionView) {
    if request.method != "GET"@ {
        (Stage::Writing, ActionView::Write { response: ResponseView::method_not_allowed() })
    } else {
        (
            Stage::Resolving,
            ActionView::Canonicalize { target: target_of(request.decoded_path, args.suffix) },
        )
    }
}

/// The answer to a request line whose path does not decode: the method is
/// judged first, so only a `GET` is told that its request was bad.
pub open spec fn rejected(method: Seq<char>) -> ResponseView {
    if method != "GET"@ {
        ResponseView::method_not_allowed()
    } else {
        ResponseView::bad_request()
    }
}

/// The transition function of a connection: the state after `event`, and
/// the action that it calls for. An event that the stage does not wait for
/// closes the connection.
pub open spec fn transition(args: ArgsView, connection: ConnectionView, event: EventView) -> (
    ConnectionView,
    ActionView,
) {
    let closed = (ConnectionView { stage: Stage::Closed, ..connection }, ActionView::Close);
    match (connection.stage, event) {
        (Stage::Accepted, EventView::Accepted) => (
            ConnectionView { stage: Stage::Parsing, ..connection },
            ActionView::ReadLine,
        ),
        (Stage::Parsing, EventView::Received(input)) => match parsed(input) {
            Ok(request) => (
                ConnectionView { stage: prepared(request, args).0, request: Some(request) },
                prepared(request, args).1,
            ),
            Err(ParseErrorView::MalformedPath { method, raw_path }) => (
                ConnectionView { stage: Stage::Writing, ..connection },
                ActionView::Write { response: rejected(method) },
            ),
            Err(ParseErrorView::ConnectionClosed) => closed,
        },
        (Stage::Resolving, EventView::Resolved(resolution)) => match classified(
            resolution,
            args.root,
        ) {
            OutcomeView::Found(path) => (
                ConnectionView { stage: Stage::Building(Source::Target), ..connection },
                ActionView::ReadFile { path },
            ),
            OutcomeView::NotFound => (
                ConnectionView { stage: Stage::Building(Source::Fallback), ..connection },
                ActionView::ReadFallback,
            ),
            OutcomeView::Fault => (
                ConnectionView { stage: Stage::Writing, ..connection },
                ActionView::Write { response: ResponseView::internal_error() },
            ),
        },
        (Stage::Building(Source::Target), EventView::Loaded(Some(contents))) => (
            ConnectionView { stage: Stage::Writing, ..connection },
            ActionView::Write { response: ResponseView::ok(contents) },
        ),
        (Stage::Building(Source::Target), EventView::Loaded(None)) => (
            ConnectionView { stage: Stage::Building(Source::Fallback), ..connection },
            ActionView::ReadFallback,
        ),
        (Stage::Building(Source::Fallback), EventView::Loaded(fallback)) => (
            ConnectionView { stage: Stage::Writing, ..connection },
            ActionView::Write { response: ResponseView::not_found(fallback) },
        ),
        (Stage::Writing, EventView::Written) => closed,
        _ => closed,
    }
}

/// A connection never returns to a stage that it has left, and never stays
/// where it is: every event moves it to a later stage, or closes it.
pub proof fn lemma_connection_moves_forward(
    args: ArgsView,
    connection: ConnectionView,
    event: EventView,
)
    ensures
        transition(args, connection, event).0.stage == Stage::Closed || transition(
            args,
            connection,
            event,
        ).0.stage.rank() > connection.stage.rank(),
{
}

/// A connection never asks for a file outside the root: whatever state it is
/// in and whatever it is told, the path of a read lies within the root.
pub proof fn lemma_reads_stay_within_root(
    args: ArgsView,
    connection: ConnectionView,
    event: EventView,
)
    ensures
        transition(args, connection, event).1 matches ActionView::ReadFile { path } ==> is_within(
            args.root,
            path,
        ),
{
}

/// Whether `method` is `GET`.
fn is_get(method: &str) -> (get: bool)
    ensures
        get == (method@ == "GET"@),
{
    proof {
        reveal_strlit("GET");
    }
    let get = method.unicode_len() == 3 && method.get_char(0) == 'G' && method.get_char(1) == 'E'
        && method.get_char(2) == 'T';
    assert(get ==> method@ =~= "GET"@);
    get
}

/// Decides what a parsed request calls for: a 405 for any method but `GET`,
/// otherwise the lookup of its target beneath the root.
pub fn prepare_response(request: &Request, args: &Args) -> (decision: (Stage, Action))
    ensures
        (decision.0, decision.1@) == prepared(request@, args@),
{
    if !is_get(request.method.as_str()) {
        (Stage::Writing, Action::Write { response: Response::method_not_allowed() })
    } else {
        let target = target_path(request.decoded_path.as_str(), args.suffix.as_str());
        (Stage::Resolving, Action::Canonicalize { target })
    }
}

impl Connection {
    /// A connection that was just accepted.
    pub fn new() -> (connection: Connection)
        ensures
            connection@ == (ConnectionView { stage: Stage::Accepted, request: None }),
    {
        Connection { stage: Stage::Accepted, request: None }
    }

    /// Takes `event` in and hands out the action that it calls for.
    pub fn step(&mut self, args: &Args, event: Event) -> (action: Action)
        ensures
            (final(self)@, action@) == transition(args@, old(self)@, event@),
    {
        match (self.stage, event) {
            (Stage::Accepted, Event::Accepted) => {
                self.stage = Stage::Parsing;
                Action::ReadLine
            },
            (Stage::Parsing, Event::Received(input)) => {
                match parse_request(input.as_str()) {
                    Ok(request) => {
                        let (stage, action) = prepare_response(&request, args);
                        self.stage = stage;
                        self.request = Some(request);
                        action
                    },
                    Err(ParseError::MalformedPath { method, raw_path }) => {
                        self.stage = Stage::Writing;
                        let response = if is_get(method.as_str()) {
                            Response::bad_request()
                        } else {
                            Response::method_not_allowed()
                        };
                        Action::Write { response }
                    },
                    Err(ParseError::ConnectionClosed) => {
                        self.stage = Stage::Closed;
                        Action::Close
                    },
                }
            },
            (Stage::Resolving, Event::Resolved(resolution)) => {
                match classify(resolution, &args.root) {
                    Outcome::Found(path) => {
                        self.stage = Stage::Building(Source::Target);
                        Action::ReadFile { path }
                    },
                    Outcome::NotFound => {
                        self.stage = Stage::Building(Source::Fallback);
                        Action::ReadFallback
                    },
                    Outcome::Fault => {
                        self.stage = Stage::Writing;
                        Action::Write { response: Response::internal_error() }
                    },
                }
            },
            (Stage::Building(Source::Target), Event::Loaded(Some(contents))) => {
                self.stage = Stage::Writing;
                Action::Write { response: Response::ok(contents) }
            },
            (Stage::Building(Source::Target), Event::Loaded(None)) => {
                self.stage = Stage::Building(Source::Fallback);
                Action::ReadFallback
            },
            (Stage::Building(Source::Fallback), Event::Loaded(fallback)) => {
                self.stage = Stage::Writing;
                Action::Write { response: Response::not_found(fallback) }
            },
            (Stage::Writing, Event::Written) => {
                self.stage = Stage::Closed;
                Action::Close
            },
            _ => {
                self.stage = Stage::Closed;
                Action::Close
            },
        }
    }
}

} // verus!
