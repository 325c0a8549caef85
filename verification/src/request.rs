//! The request parser: one request line in, method and path out.

use std::string::FromUtf8Error;
use vstd::prelude::*;

verus! {

/// One parsed request line.
#[derive(Clone, Debug, PartialEq, Eq)]
pub struct Request {
    /// The first token of the line.
    pub method: String,
    /// The second token of the line, as it was sent.
    pub raw_path: String,
    /// The raw path after percent-decoding.
    pub decoded_path: String,
}

/// The mathematical content of a [`Request`].
pub struct RequestView {
    pub method: Seq<char>,
    pub raw_path: Seq<char>,
    pub decoded_path: Seq<char>,
}

impl View for Request {
    type V = RequestView;

    open spec fn view(&self) -> RequestView {
        RequestView {
            method: self.method@,
            raw_path: self.raw_path@,
            decoded_path: self.decoded_path@,
        }
    }
}

/// Why no [`Request`] came out of the parser.
#[derive(Clone, Debug, PartialEq, Eq)]
pub enum ParseError {
    /// The stream ended before a line terminator arrived.
    ConnectionClosed,
    /// The raw path does not percent-decode to valid UTF-8.
    MalformedPath { method: String, raw_path: String },
}

/// The mathematical content of a [`ParseError`].
pub enum ParseErrorView {
    ConnectionClosed,
    MalformedPath { method: Seq<char>, raw_path: Seq<char> },
}

impl View for ParseError {
    type V = ParseErrorView;

    open spec fn view(&self) -> ParseErrorView {
        match self {
            ParseError::ConnectionClosed => ParseErrorView::ConnectionClosed,
            ParseError::MalformedPath { method, raw_path } => ParseErrorView::MalformedPath {
                method: method@,
                raw_path: raw_path@,
            },
        }
    }
}

/// The mathematical content of a parser result.
pub open spec fn parse_view(result: Result<Request, ParseError>) -> Result<
    RequestView,
    ParseErrorView,
> {
    match result {
        Ok(request) => Ok(request@),
        Err(error) => Err(error@),
    }
}

/// The Unicode `White_Space` property.
pub open spec fn white_space(c: char) -> bool {
    ||| '\u{9}' <= c <= '\u{d}'
    ||| c == ' '
    ||| c == '\u{85}'
    ||| c == '\u{a0}'
    ||| c == '\u{1680}'
    ||| '\u{2000}' <= c <= '\u{200a}'
    ||| c == '\u{2028}'
    ||| c == '\u{2029}'
    ||| c == '\u{202f}'
    ||| c == '\u{205f}'
    ||| c == '\u{3000}'
}

/// Whether `c` separates the tokens of a request line.
pub fn is_whitespace(c: char) -> (space: bool)
    ensures
        space == white_space(c),
{
    ('\u{9}' <= c && c <= '\u{d}')
        || c == ' '
        || c == '\u{85}'
        || c == '\u{a0}'
        || c == '\u{1680}'
        || ('\u{2000}' <= c && c <= '\u{200a}')
        || c == '\u{2028}'
        || c == '\u{2029}'
        || c == '\u{202f}'
        || c == '\u{205f}'
        || c == '\u{3000}'
}

/// The number of characters before the first whitespace character of `s`.
pub open spec fn word_len(s: Seq<char>) -> nat
    decreases s.len(),
{
    if s.len() > 0 && !white_space(s[0]) {
        1 + word_len(s.drop_first())
    } else {
        0
    }
}

/// A word never runs past the end of the text.
pub proof fn lemma_word_len_bounded(s: Seq<char>)
    ensures
        word_len(s) <= s.len(),
    decreases s.len(),
{
    if s.len() > 0 && !white_space(s[0]) {
        lemma_word_len_bounded(s.drop_first());
    }
}

/// The maximal runs of non-whitespace characters of `s`, in order.
pub open spec fn words(s: Seq<char>) -> Seq<Seq<char>>
    decreases s.len(),
    via words_terminates
{
    if s.len() == 0 {
        Seq::empty()
    } else if white_space(s[0]) {
        words(s.drop_first())
    } else {
        seq![s.take(word_len(s) as int)] + words(s.skip(word_len(s) as int))
    }
}

#[via_fn]
proof fn words_terminates(s: Seq<char>) {
    lemma_word_len_bounded(s);
}

/// The text before the first line terminator, if there is one.
pub open spec fn first_line(input: Seq<char>) -> Option<Seq<char>> {
    match input.index_of_first('\n') {
        Some(end) => Some(input.take(end)),
        None => None,
    }
}

/// The first token of a request line; empty if the line has none.
pub open spec fn method_of(line: Seq<char>) -> Seq<char> {
    if words(line).len() > 0 {
        words(line)[0]
    } else {
        Seq::empty()
    }
}

/// The second token of a request line; `/` if the line has none.
pub open spec fn raw_path_of(line: Seq<char>) -> Seq<char> {
    if words(line).len() > 1 {
        words(line)[1]
    } else {
        "/"@
    }
}

/// The first line of an input is what stands before its first terminator,
/// whatever follows it.
pub proof fn lemma_first_line_form(line: Seq<char>, rest: Seq<char>)
    requires
        !line.contains('\n'),
    ensures
        first_line(line + seq!['\n'] + rest) == Some(line),
{
    let input = line + seq!['\n'] + rest;
    input.index_of_first_ensures('\n');
    assert(input[line.len() as int] == '\n');
    assert(input.contains('\n'));
    let end = input.index_of_first('\n').unwrap();
    if end < line.len() {
        assert(line[end] == '\n');
    }
    assert(input.take(line.len() as int) =~= line);
}

/// A token: at least one character, none of them whitespace.
pub open spec fn is_token(s: Seq<char>) -> bool {
    s.len() > 0 && forall|i: int| 0 <= i < s.len() ==> !white_space(#[trigger] s[i])
}

/// A token that is followed by whitespace, or by nothing, is a word.
proof fn lemma_token_is_a_word(token: Seq<char>, rest: Seq<char>)
    requires
        is_token(token),
        rest.len() == 0 || white_space(rest[0]),
    ensures
        words(token + rest) == seq![token] + words(rest),
{
    lemma_word_len_of_token(token, rest);
    let text = token + rest;
    assert(text.take(token.len() as int) =~= token);
    assert(text.skip(token.len() as int) =~= rest);
}

/// The first word of a text that begins with a token ends where the token
/// does, if whitespace or nothing follows.
proof fn lemma_word_len_of_token(token: Seq<char>, rest: Seq<char>)
    requires
        forall|i: int| 0 <= i < token.len() ==> !white_space(#[trigger] token[i]),
        rest.len() == 0 || white_space(rest[0]),
    ensures
        word_len(token + rest) == token.len(),
    decreases token.len(),
{
    if token.len() == 0 {
        assert(token + rest =~= rest);
    } else {
        assert((token + rest).drop_first() =~= token.drop_first() + rest);
        assert(!white_space(token[0]));
        lemma_word_len_of_token(token.drop_first(), rest);
    }
}

/// The parser reads the wire form `METHOD SP PATH`, whether the line ends
/// there or goes on after more whitespace: it yields that method and path.
pub proof fn lemma_request_line_form(method: Seq<char>, path: Seq<char>, rest: Seq<char>)
    requires
        is_token(method),
        is_token(path),
        rest.len() == 0 || white_space(rest[0]),
    ensures
        method_of(method + seq![' '] + path + rest) == method,
        raw_path_of(method + seq![' '] + path + rest) == path,
{
    let after_method = seq![' '] + (path + rest);
    assert(method + seq![' '] + path + rest =~= method + after_method);
    lemma_token_is_a_word(method, after_method);
    assert(after_method.drop_first() =~= path + rest);
    lemma_token_is_a_word(path, rest);
}

/// The characters of `s`, for constant-time indexing.
fn chars_of(s: &str) -> (text: Vec<char>)
    ensures
        text@ == s@,
{
    let mut text: Vec<char> = Vec::new();
    for c in it: s.chars()
        invariant
            text@ == it.seq().take(it.index() as int),
            it.seq() == s@,
    {
        text.push(c);
    }
    text
}

/// The position of the first line terminator in `text`.
fn find_terminator(text: &Vec<char>) -> (end: Option<usize>)
    ensures
        (match end {
            Some(n) => n < text.len() && text@.index_of_first('\n') == Some(n as int),
            None => text@.index_of_first('\n') is None,
        }),
{
    let mut i: usize = 0;
    while i < text.len()
        invariant
            i <= text.len(),
            forall|j: int| 0 <= j < i ==> text@[j] != '\n',
        decreases text.len() - i,
    {
        if text[i] == '\n' {
            proof {
                assert(text@.contains('\n'));
                text@.index_of_first_ensures('\n');
            }
            return Some(i);
        }
        i += 1;
    }
    proof {
        text@.index_of_first_ensures('\n');
    }
    None
}

/// Finds the next word of `text[..limit]` that starts at or after `from`.
/// The span is empty, and sits at `limit`, when no word is left.
fn next_word(text: &Vec<char>, from: usize, limit: usize) -> (span: (usize, usize))
    requires
        from <= limit <= text.len(),
    ensures
        from <= span.0 <= span.1 <= limit,
        ({
            let line = text@.take(limit as int);
            let rest = words(line.skip(from as int));
            if span.0 == span.1 {
                span.0 == limit && rest =~= Seq::empty()
            } else {
                rest =~= seq![line.subrange(span.0 as int, span.1 as int)] + words(
                    line.skip(span.1 as int),
                )
            }
        }),
{
    let ghost line = text@.take(limit as int);
    let mut start: usize = from;
    while start < limit && is_whitespace(text[start])
        invariant
            from <= start <= limit <= text.len(),
            line == text@.take(limit as int),
            words(line.skip(start as int)) == words(line.skip(from as int)),
        decreases limit - start,
    {
        assert(line.skip(start as int).drop_first() =~= line.skip(start as int + 1));
        start += 1;
    }
    let mut end: usize = start;
    while end < limit && !is_whitespace(text[end])
        invariant
            start <= end <= limit <= text.len(),
            line == text@.take(limit as int),
            word_len(line.skip(start as int)) == (end - start) + word_len(line.skip(end as int)),
        decreases limit - end,
    {
        assert(line.skip(end as int).drop_first() =~= line.skip(end as int + 1));
        end += 1;
    }
    proof {
        let tail = line.skip(start as int);
        if start < end {
            assert(tail.take((end - start) as int) =~= line.subrange(start as int, end as int));
            assert(tail.skip((end - start) as int) =~= line.skip(end as int));
        }
    }
    (start, end)
}

/// Splits what was read from a connection into method and raw path.
///
/// Only the text before the first line terminator counts; without a
/// terminator there is no request line yet and the result is `None`.
pub fn split_request_line(input: &str) -> (parts: Option<(String, String)>)
    ensures
        (match first_line(input@) {
            Some(line) => parts matches Some((method, raw_path)) && method@ == method_of(line)
                && raw_path@ == raw_path_of(line),
            None => parts is None,
        }),
{
    let text = chars_of(input);
    match find_terminator(&text) {
        None => None,
        Some(limit) => {
            let ghost line = text@.take(limit as int);
            assert(line.skip(0) =~= line);
            let (method_start, method_end) = next_word(&text, 0, limit);
            let (path_start, path_end) = next_word(&text, method_end, limit);
            let method = input.substring_char(method_start, method_end).to_owned();
            let raw_path = if path_start < path_end {
                input.substring_char(path_start, path_end).to_owned()
            } else {
                "/".to_owned()
            };
            proof {
                assert(input@.subrange(method_start as int, method_end as int) =~= line.subrange(
                    method_start as int,
                    method_end as int,
                ));
                assert(input@.subrange(path_start as int, path_end as int) =~= line.subrange(
                    path_start as int,
                    path_end as int,
                ));
            }
            Some((method, raw_path))
        },
    }
}

/// The error of `String::from_utf8`, which `urlencoding::decode` hands on.
/// It is carried through unopened.
#[verifier::external_type_specification]
#[verifier::external_body]
pub struct ExFromUtf8Error(FromUtf8Error);

/// The mathematical content of a decoding outcome: the text, if there is one.
pub open spec fn decoding_view(decoded: Result<String, FromUtf8Error>) -> Option<Seq<char>> {
    match decoded {
        Ok(text) => Some(text@),
        Err(_) => None,
    }
}

/// What `urlencoding::decode` makes of a raw path: the text with its
/// percent escapes replaced by the bytes they stand for, or `None` where
/// those bytes are not valid UTF-8.
pub uninterp spec fn percent_decoded(raw_path: Seq<char>) -> Option<Seq<char>>;

/// Calls `urlencoding::decode` on the raw path.
///
/// Nothing is proved of the decoder; two things are taken on trust. Its
/// result depends on the raw path alone, which is what gives it the name
/// `percent_decoded`. And a path without a percent sign comes back as it is.
#[verifier::external_body]
fn percent_decode(raw_path: &str) -> (decoded: Result<String, FromUtf8Error>)
    ensures
        decoding_view(decoded) == percent_decoded(raw_path@),
        !raw_path@.contains('%') ==> decoding_view(decoded) == Some(raw_path@),
{
    match urlencoding::decode(raw_path) {
        Ok(text) => Ok(text.into_owned()),
        Err(error) => Err(error),
    }
}

/// The parser's result for a split line and the outcome of decoding its path.
pub open spec fn assembled(
    method: Seq<char>,
    raw_path: Seq<char>,
    decoded: Option<Seq<char>>,
) -> Result<RequestView, ParseErrorView> {
    match decoded {
        Some(decoded_path) => Ok(RequestView { method, raw_path, decoded_path }),
        None => Err(ParseErrorView::MalformedPath { method, raw_path }),
    }
}

/// The parser's result for everything read from one connection.
pub open spec fn parsed(input: Seq<char>) -> Result<RequestView, ParseErrorView> {
    match first_line(input) {
        Some(line) => assembled(
            method_of(line),
            raw_path_of(line),
            percent_decoded(raw_path_of(line)),
        ),
        None => Err(ParseErrorView::ConnectionClosed),
    }
}

impl Request {
    /// Completes a request from a split line and the outcome of decoding its
    /// raw path. A failed decoding keeps method and raw path in the error.
    pub fn assemble(
        method: String,
        raw_path: String,
        decoded: Result<String, FromUtf8Error>,
    ) -> (result: Result<Request, ParseError>)
        ensures
            parse_view(result) == assembled(method@, raw_path@, decoding_view(decoded)),
    {
        match decoded {
            Ok(decoded_path) => Ok(Request { method, raw_path, decoded_path }),
            Err(_) => Err(ParseError::MalformedPath { method, raw_path }),
        }
    }
}

/// Parses what was read from one connection.
///
/// Fails with `ConnectionClosed` exactly when no line terminator was read,
/// and with `MalformedPath` exactly when the raw path does not decode. A raw
/// path without a percent sign always decodes, to itself.
pub fn parse_request(input: &str) -> (result: Result<Request, ParseError>)
    ensures
        parse_view(result) == parsed(input@),
        first_line(input@) matches Some(line) ==> (!raw_path_of(line).contains('%')
            ==> parse_view(result) == assembled(
            method_of(line),
            raw_path_of(line),
            Some(raw_path_of(line)),
        )),
{
    match split_request_line(input) {
        None => Err(ParseError::ConnectionClosed),
        Some((method, raw_path)) => {
            let decoded = percent_decode(raw_path.as_str());
            Request::assemble(method, raw_path, decoded)
        },
    }
}

} // verus!
