//! What the server answers, as a whole.
//!
//! The handler decides one step at a time. This module says what those steps
//! add up to: the response to a request, given what the filesystem holds. It
//! is specification and proof only.

use crate::config::ArgsView;
use crate::handler::{rejected, transition, ActionView, ConnectionView, EventView, Stage};
use crate::request::{first_line, method_of, parsed, ParseErrorView, RequestView};
use crate::resolver::{classified, is_within, target_of, OutcomeView, ResolutionView};
use crate::response::{decimal, digits, wire_format, ResponseView};
use vstd::prelude::*;
use vstd::string::StringSliceAdditionalSpecFns;

verus! {

/// What the filesystem would answer while one request is served.
pub ghost struct Disk {
    /// What canonicalizing a target, taken relative to the root, reports.
    pub canonical: spec_fn(Seq<char>) -> ResolutionView,
    /// What reading the file at a canonical path yields.
    pub contents: spec_fn(Seq<Seq<u8>>) -> Option<Seq<u8>>,
    /// What reading the fallback page of the root yields.
    pub fallback: Option<Seq<u8>>,
}

impl Disk {
    /// The resolution of `target`, taken relative to the root.
    pub open spec fn resolve(self, target: Seq<char>) -> ResolutionView {
        (self.canonical)(target)
    }

    /// The bytes of the file at `path`, if it can be read.
    pub open spec fn read(self, path: Seq<Seq<u8>>) -> Option<Seq<u8>> {
        (self.contents)(path)
    }
}

/// The response to a parsed request.
pub open spec fn built(args: ArgsView, disk: Disk, request: RequestView) -> ResponseView {
    if request.method != "GET"@ {
        ResponseView::method_not_allowed()
    } else {
        let target = target_of(request.decoded_path, args.suffix);
        match classified(disk.resolve(target), args.root) {
            OutcomeView::Found(path) => match disk.read(path) {
                Some(contents) => ResponseView::ok(contents),
                None => ResponseView::not_found(disk.fallback),
            },
            OutcomeView::NotFound => ResponseView::not_found(disk.fallback),
            OutcomeView::Fault => ResponseView::internal_error(),
        }
    }
}

/// The response to what was read from a connection; `None` where the
/// connection is closed without one.
pub open spec fn served(args: ArgsView, disk: Disk, input: Seq<char>) -> Option<ResponseView> {
    match parsed(input) {
        Ok(request) => Some(built(args, disk, request)),
        Err(ParseErrorView::MalformedPath { method, raw_path }) => Some(rejected(method)),
        Err(ParseErrorView::ConnectionClosed) => None,
    }
}

/// The event with which a faithful caller answers `action`. Nothing follows
/// a `Close`, so what stands for its answer is never looked at.
pub open spec fn reply(disk: Disk, input: Seq<char>, action: ActionView) -> EventView {
    match action {
        ActionView::ReadLine => EventView::Received(input),
        ActionView::Canonicalize { target } => EventView::Resolved(disk.resolve(target)),
        ActionView::ReadFile { path } => EventView::Loaded(disk.read(path)),
        ActionView::ReadFallback => EventView::Loaded(disk.fallback),
        ActionView::Write { response } => EventView::Written,
        ActionView::Close => EventView::Failed,
    }
}

/// The response that a connection writes when it takes `event` in and is
/// then driven by a faithful caller for at most `steps` steps.
pub open spec fn run(
    args: ArgsView,
    disk: Disk,
    input: Seq<char>,
    connection: ConnectionView,
    event: EventView,
    steps: nat,
) -> Option<ResponseView>
    decreases steps,
{
    if steps == 0 {
        None
    } else {
        let (after, action) = transition(args, connection, event);
        match action {
            ActionView::Write { response } => Some(response),
            ActionView::Close => None,
            _ => run(args, disk, input, after, reply(disk, input, action), (steps - 1) as nat),
        }
    }
}

/// A connection that is accepted and then driven by a faithful caller
/// writes the response that `served` describes, within five steps.
pub proof fn lemma_connection_serves(args: ArgsView, disk: Disk, input: Seq<char>)
    ensures
        run(
            args,
            disk,
            input,
            ConnectionView { stage: Stage::Accepted, request: None },
            EventView::Accepted,
            5,
        ) == served(args, disk, input),
{
    reveal_with_fuel(run, 6);
}

/// The central guarantee: a 200 carries the bytes of a file within the root,
/// the one that the target of the request resolves to, and nothing else.
pub proof fn lemma_only_files_within_root_are_served(
    args: ArgsView,
    disk: Disk,
    request: RequestView,
)
    requires
        built(args, disk, request).status_code == 200,
    ensures
        disk.resolve(target_of(request.decoded_path, args.suffix))
            matches ResolutionView::Canonical(path) && is_within(args.root, path) && disk.read(
            path,
        ) == Some(built(args, disk, request).body),
{
}

/// Containment is the only thing that tells a target outside the root from
/// one that does not exist, and it leaves no trace: the two are answered
/// alike, bit for bit. For a `GET` the answer is the 404 built from the
/// fallback page, whatever the file outside the root holds.
pub proof fn lemma_outside_root_is_not_found(
    args: ArgsView,
    request: RequestView,
    outside: Disk,
    absent: Disk,
    path: Seq<Seq<u8>>,
)
    requires
        outside.resolve(target_of(request.decoded_path, args.suffix))
            == ResolutionView::Canonical(path),
        !is_within(args.root, path),
        absent.resolve(target_of(request.decoded_path, args.suffix))
            == ResolutionView::Missing,
        outside.fallback == absent.fallback,
    ensures
        built(args, outside, request) == built(args, absent, request),
        wire_format(built(args, outside, request)) == wire_format(built(args, absent, request)),
        request.method == "GET"@ ==> built(args, outside, request) == ResponseView::not_found(
            outside.fallback,
        ),
{
}

/// Any method but `GET` is answered with 405, whether or not its path
/// decodes and whatever the filesystem holds.
pub proof fn lemma_other_methods_are_refused(
    args: ArgsView,
    disk: Disk,
    input: Seq<char>,
    line: Seq<char>,
)
    requires
        first_line(input) == Some(line),
        method_of(line) != "GET"@,
    ensures
        served(args, disk, input) == Some(ResponseView::method_not_allowed()),
{
}

/// A file beneath the root is served as it is: a `GET` for `/name`, where
/// `name` with the suffix resolves within the root to a readable file,
/// is answered with 200 and exactly the bytes of that file, and the
/// response announces their number as its content length.
pub proof fn lemma_round_trip(
    args: ArgsView,
    disk: Disk,
    request: RequestView,
    name: Seq<char>,
    path: Seq<Seq<u8>>,
    file: Seq<u8>,
)
    requires
        request.method == "GET"@,
        request.decoded_path == seq!['/'] + name,
        name.len() > 0,
        disk.resolve(name + args.suffix) == ResolutionView::Canonical(path),
        is_within(args.root, path),
        disk.read(path) == Some(file),
    ensures
        built(args, disk, request) == ResponseView::ok(file),
        built(args, disk, request).status_code == 200,
        built(args, disk, request).body == file,
        wire_format(built(args, disk, request)) == "HTTP/1.1 200 Ok\r\nContent-Length: ".spec_bytes()
            + digits(file.len()) + "\r\n\r\n".spec_bytes() + file,
{
    reveal_strlit("/");
    assert(request.decoded_path.drop_first() =~= name);
    lemma_status_line_of_ok(file);
}

/// The head of a 200 response, spelled out.
proof fn lemma_status_line_of_ok(file: Seq<u8>)
    ensures
        wire_format(ResponseView::ok(file)) == "HTTP/1.1 200 Ok\r\nContent-Length: ".spec_bytes()
            + digits(file.len()) + "\r\n\r\n".spec_bytes() + file,
{
    reveal_strlit("HTTP/1.1 ");
    reveal_strlit(" ");
    reveal_strlit("Ok");
    reveal_strlit("\r\nContent-Length: ");
    reveal_strlit("HTTP/1.1 200 Ok\r\nContent-Length: ");
    reveal_with_fuel(digits, 3);
    vstd::utf8::is_ascii_chars_encode_utf8("HTTP/1.1 "@);
    vstd::utf8::is_ascii_chars_encode_utf8(" "@);
    vstd::utf8::is_ascii_chars_encode_utf8("Ok"@);
    vstd::utf8::is_ascii_chars_encode_utf8("\r\nContent-Length: "@);
    vstd::utf8::is_ascii_chars_encode_utf8("HTTP/1.1 200 Ok\r\nContent-Length: "@);
    assert(decimal(200) =~= seq![50u8, 48u8, 48u8]);
    let head = "HTTP/1.1 ".spec_bytes() + decimal(200) + " ".spec_bytes() + "Ok".spec_bytes()
        + "\r\nContent-Length: ".spec_bytes();
    assert(head =~= "HTTP/1.1 200 Ok\r\nContent-Length: ".spec_bytes());
}

/// The response to a request depends on the filesystem only through the
/// answers that serving it asks for: the resolution of its target, the bytes
/// at the canonical path found, and the fallback page.
pub proof fn lemma_response_depends_on_answers(
    args: ArgsView,
    request: RequestView,
    first: Disk,
    second: Disk,
)
    requires
        first.resolve(target_of(request.decoded_path, args.suffix)) == second.resolve(
            target_of(request.decoded_path, args.suffix),
        ),
        first.resolve(target_of(request.decoded_path, args.suffix))
            matches ResolutionView::Canonical(path) ==> first.read(path) == second.read(path),
        first.fallback == second.fallback,
    ensures
        built(args, first, request) == built(args, second, request),
{
}

/// Serving is repeatable: the same input against a filesystem that answers
/// the same yields the same response, or the same silence.
pub proof fn lemma_same_disk_same_response(
    args: ArgsView,
    input: Seq<char>,
    first: Disk,
    second: Disk,
)
    requires
        forall|target: Seq<char>| first.resolve(target) == second.resolve(target),
        forall|path: Seq<Seq<u8>>| first.read(path) == second.read(path),
        first.fallback == second.fallback,
    ensures
        served(args, first, input) == served(args, second, input),
{
    if let Ok(request) = parsed(input) {
        lemma_response_depends_on_answers(args, request, first, second);
    }
}

} // verus!
