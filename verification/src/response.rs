//! The response builder: which response answers which outcome, and how a
//! response is laid out on the wire.

use vstd::prelude::*;
use vstd::string::StrSliceExecFns;
use vstd::string::StringSliceAdditionalSpecFns;

verus! {

/// An HTTP response: status line parts and a body held entirely in memory.
#[derive(Clone, Debug, PartialEq, Eq)]
pub struct Response {
    pub status_code: i32,
    pub status_message: String,
    pub body: Vec<u8>,
}

/// The mathematical content of a [`Response`].
pub struct ResponseView {
    pub status_code: int,
    pub status_message: Seq<char>,
    pub body: Seq<u8>,
}

impl View for Response {
    type V = ResponseView;

    open spec fn view(&self) -> ResponseView {
        ResponseView {
            status_code: self.status_code as int,
            status_message: self.status_message@,
            body: self.body@,
        }
    }
}

/// The mathematical content of bytes that may be absent.
pub open spec fn bytes_view(bytes: Option<Vec<u8>>) -> Option<Seq<u8>> {
    match bytes {
        Some(present) => Some(present@),
        None => None,
    }
}

impl ResponseView {
    /// The answer to a request whose file was read.
    pub open spec fn ok(contents: Seq<u8>) -> ResponseView {
        ResponseView { status_code: 200, status_message: "Ok"@, body: contents }
    }

    /// The answer to a request line whose path does not decode.
    pub open spec fn bad_request() -> ResponseView {
        ResponseView {
            status_code: 400,
            status_message: "Bad Request"@,
            body: "Bad Request".spec_bytes(),
        }
    }

    /// The answer to a request for nothing that may be served: the fallback
    /// page if it could be read, a fixed text if not.
    pub open spec fn not_found(fallback: Option<Seq<u8>>) -> ResponseView {
        ResponseView {
            status_code: 404,
            status_message: "Not Found"@,
            body: match fallback {
                Some(page) => page,
                None => "404 Not Found".spec_bytes(),
            },
        }
    }

    /// The answer to any method but `GET`.
    pub open spec fn method_not_allowed() -> ResponseView {
        ResponseView {
            status_code: 405,
            status_message: "Method Not Allowed"@,
            body: "Method Not Allowed".spec_bytes(),
        }
    }

    /// The answer when the server itself failed.
    pub open spec fn internal_error() -> ResponseView {
        ResponseView {
            status_code: 500,
            status_message: "Internal Server Error"@,
            body: "Internal Server Error".spec_bytes(),
        }
    }
}

/// The decimal digits of `n` in ASCII, most significant first.
pub open spec fn digits(n: nat) -> Seq<u8>
    decreases n,
{
    if n < 10 {
        seq![(48 + n) as u8]
    } else {
        digits(n / 10).push((48 + n % 10) as u8)
    }
}

/// The decimal rendering of `n` in ASCII, with a minus sign if negative.
pub open spec fn decimal(n: int) -> Seq<u8> {
    if n < 0 {
        seq![45u8] + digits((-n) as nat)
    } else {
        digits(n as nat)
    }
}

/// The bytes of a response on the wire: status line, content length, an
/// empty line, and the body.
pub open spec fn wire_format(response: ResponseView) -> Seq<u8> {
    "HTTP/1.1 ".spec_bytes() + decimal(response.status_code) + " ".spec_bytes()
        + vstd::utf8::encode_utf8(response.status_message) + "\r\nContent-Length: ".spec_bytes()
        + decimal(response.body.len() as int) + "\r\n\r\n".spec_bytes() + response.body
}

/// Appends the decimal digits of `n`.
fn push_digits(out: &mut Vec<u8>, n: u64)
    ensures
        final(out)@ == old(out)@ + digits(n as nat),
    decreases n,
{
    if n >= 10 {
        push_digits(out, n / 10);
    }
    out.push(48 + (n % 10) as u8);
}

/// Appends the decimal rendering of `n`.
fn push_decimal(out: &mut Vec<u8>, n: i64)
    requires
        n > i64::MIN,
    ensures
        final(out)@ == old(out)@ + decimal(n as int),
{
    if n < 0 {
        out.push(45);
        push_digits(out, (-n) as u64);
    } else {
        push_digits(out, n as u64);
    }
}

/// Appends `bytes`.
fn push_bytes(out: &mut Vec<u8>, bytes: &[u8])
    ensures
        final(out)@ == old(out)@ + bytes@,
{
    out.extend_from_slice(bytes);
}

impl Response {
    /// Builds a response from its three parts.
    pub fn new(status_code: i32, status_message: &str, body: Vec<u8>) -> (response: Response)
        ensures
            response@ == (ResponseView {
                status_code: status_code as int,
                status_message: status_message@,
                body: body@,
            }),
    {
        Response { status_code, status_message: status_message.to_owned(), body }
    }

    /// 200 with the bytes of the requested file.
    pub fn ok(contents: Vec<u8>) -> (response: Response)
        ensures
            response@ == ResponseView::ok(contents@),
    {
        Response::new(200, "Ok", contents)
    }

    /// 400 with a fixed body.
    pub fn bad_request() -> (response: Response)
        ensures
            response@ == ResponseView::bad_request(),
    {
        Response::new(400, "Bad Request", "Bad Request".as_bytes_vec())
    }

    /// 404 with the fallback page, or with a fixed body where the page could
    /// not be read.
    pub fn not_found(fallback: Option<Vec<u8>>) -> (response: Response)
        ensures
            response@ == ResponseView::not_found(bytes_view(fallback)),
    {
        let body = match fallback {
            Some(page) => page,
            None => "404 Not Found".as_bytes_vec(),
        };
        Response::new(404, "Not Found", body)
    }

    /// 405 with a fixed body.
    pub fn method_not_allowed() -> (response: Response)
        ensures
            response@ == ResponseView::method_not_allowed(),
    {
        Response::new(405, "Method Not Allowed", "Method Not Allowed".as_bytes_vec())
    }

    /// 500 with a fixed body.
    pub fn internal_error() -> (response: Response)
        ensures
            response@ == ResponseView::internal_error(),
    {
        Response::new(500, "Internal Server Error", "Internal Server Error".as_bytes_vec())
    }

    /// Appends the response to `out` as it goes over the wire.
    pub fn write(&self, out: &mut Vec<u8>)
        ensures
            final(out)@ == old(out)@ + wire_format(self@),
    {
        push_bytes(out, "HTTP/1.1 ".as_bytes());
        push_decimal(out, self.status_code as i64);
        push_bytes(out, " ".as_bytes());
        push_bytes(out, self.status_message.as_str().as_bytes());
        push_bytes(out, "\r\nContent-Length: ".as_bytes());
        push_digits(out, self.body.len() as u64);
        push_bytes(out, "\r\n\r\n".as_bytes());
        push_bytes(out, self.body.as_slice());
    }
}

} // verus!
