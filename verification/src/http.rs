//! Plain-value models of a request and a reply, and the contracts that a
//! payload and an error classifier have to meet.

use crate::error::Error;
use crate::text::{eq_ignore_ascii_case, same_ignoring_case};
use vstd::prelude::*;
use vstd::string::StringSliceAdditionalSpecFns;
use vstd::utf8::encode_utf8;

verus! {

/// The request methods that the panel's API uses.
#[derive(Debug, Clone, Copy, PartialEq, Eq, Structural)]
pub enum Method {
    Get,
    Post,
    Put,
    Patch,
    Delete,
}

impl Method {
    /// The method's name as it stands in a request line.
    pub open spec fn name(self) -> Seq<char> {
        match self {
            Method::Get => "GET"@,
            Method::Post => "POST"@,
            Method::Put => "PUT"@,
            Method::Patch => "PATCH"@,
            Method::Delete => "DELETE"@,
        }
    }

    /// The method's name as it stands in a request line.
    pub fn as_str(self) -> (s: &'static str)
        ensures
            s@ == self.name(),
    {
        match self {
            Method::Get => "GET",
            Method::Post => "POST",
            Method::Put => "PUT",
            Method::Patch => "PATCH",
            Method::Delete => "DELETE",
        }
    }
}

/// One header line: a name, and a value that need not be text.
#[derive(Debug, Clone, PartialEq, Eq)]
pub struct Header {
    pub name: String,
    pub value: Vec<u8>,
}

impl Header {
    /// Whether this header has the given name and carries the given text.
    pub open spec fn holds(self, name: Seq<char>, value: Seq<char>) -> bool {
        self.name@ == name && self.value@ == encode_utf8(value)
    }

    /// Whether this header goes by `name`; header names do not tell capitals
    /// from small letters.
    pub open spec fn named(self, name: Seq<char>) -> bool {
        same_ignoring_case(encode_utf8(self.name@), encode_utf8(name))
    }

    /// A header that carries text.
    pub fn new(name: &str, value: &str) -> (h: Header)
        ensures
            h.holds(name@, value@),
    {
        Header { name: name.to_owned(), value: value.as_bytes_vec() }
    }
}

/// The value of the first header that goes by `name`, if there is one.
pub open spec fn header_value(headers: Seq<Header>, name: Seq<char>) -> Option<Seq<u8>>
    decreases headers.len(),
{
    if headers.len() == 0 {
        None
    } else if headers[0].named(name) {
        Some(headers[0].value@)
    } else {
        header_value(headers.skip(1), name)
    }
}

/// The lookup does not tell capitals from small letters: two names that
/// differ in ASCII case only find the same header.
pub proof fn lemma_header_lookup_ignores_case(headers: Seq<Header>, a: Seq<char>, b: Seq<char>)
    requires
        same_ignoring_case(encode_utf8(a), encode_utf8(b)),
    ensures
        header_value(headers, a) == header_value(headers, b),
    decreases headers.len(),
{
    if headers.len() > 0 {
        lemma_header_lookup_ignores_case(headers.skip(1), a, b);
    }
}

/// Looks up the first header that goes by `name`, whatever its case.
pub fn find_header<'a>(headers: &'a Vec<Header>, name: &str) -> (found: Option<&'a Vec<u8>>)
    ensures
        match found {
            Some(value) => header_value(headers@, name@) == Some(value@),
            None => header_value(headers@, name@) is None,
        },
{
    let wanted = name.as_bytes();
    let mut i: usize = 0;
    assert(headers@.skip(0) =~= headers@);
    while i < headers.len()
        invariant
            i <= headers.len(),
            wanted@ == encode_utf8(name@),
            header_value(headers@, name@) == header_value(headers@.skip(i as int), name@),
        decreases headers.len() - i,
    {
        let ghost rest = headers@.skip(i as int);
        assert(rest.skip(1) =~= headers@.skip(i + 1));
        if eq_ignore_ascii_case(headers[i].name.as_str().as_bytes(), wanted) {
            return Some(&headers[i].value);
        }
        i += 1;
    }
    None
}

/// A request, ready to be dispatched.
#[derive(Debug, Clone, PartialEq, Eq)]
pub struct Request {
    pub method: Method,
    /// The absolute address: the client's base and the endpoint.
    pub url: String,
    pub headers: Vec<Header>,
    /// The encoded payload, where the operation has one.
    pub body: Option<Vec<u8>>,
}

/// A reply as it arrived: status, headers and the whole body.
#[derive(Debug, Clone, PartialEq, Eq)]
pub struct Response {
    pub status: u16,
    pub headers: Vec<Header>,
    pub body: Vec<u8>,
}

/// What dispatching a request led to.
#[derive(Debug, Clone, PartialEq, Eq)]
pub enum Outcome {
    /// No reply: the name did not resolve, the connection or the TLS
    /// handshake failed, or the transport gave up waiting.
    TransportFailed,
    /// The panel replied, with whatever status.
    Replied(Response),
}

/// Whether a status lies in the success range, 200 to 299.
pub open spec fn status_is_success(status: u16) -> bool {
    200 <= status < 300
}

/// Whether a status lies in the success range, 200 to 299.
pub fn is_success(status: u16) -> (ok: bool)
    ensures
        ok == status_is_success(status),
{
    200 <= status && status < 300
}

/// What the bytes of an optional body are.
pub open spec fn body_view(body: Option<Vec<u8>>) -> Option<Seq<u8>> {
    match body {
        Some(bytes) => Some(bytes@),
        None => None,
    }
}

/// A value that can be sent as the payload of a request.
pub trait RequestBody {
    /// Encodes the value: `Ok(None)` where the request goes out without a
    /// body, an error where the value has no encoding.
    fn encode(&self) -> Result<Option<Vec<u8>>, Error>;
}

/// A value that can be read from the body of a successful reply.
pub trait ResponseBody: Sized {
    /// Reads the value from a reply, consuming it.
    fn decode(response: Response) -> Result<Self, Error>;
}

/// A strategy that looks at a failed reply and may name a more specific error
/// than the status alone gives.
pub trait ErrorHandler {
    /// Inspects the reply, consuming it; `None` where the strategy declines.
    fn get_error(response: Response) -> Option<Error>;
}

/// Whether `encoded` is a result that encoding `body` can end in.
pub open spec fn encodes<Body: RequestBody>(
    body: &Body,
    encoded: Result<Option<Vec<u8>>, Error>,
) -> bool {
    call_ensures(Body::encode, (body,), encoded)
}

/// Whether `value` is a result that reading `response` as a `Resp` can end in.
pub open spec fn decodes<Resp: ResponseBody>(response: Response, value: Result<Resp, Error>) -> bool {
    call_ensures(Resp::decode, (response,), value)
}

/// Whether `classified` is an answer that the classifier `H` can give about
/// `response`.
pub open spec fn classifies<H: ErrorHandler>(response: Response, classified: Option<Error>) -> bool {
    call_ensures(H::get_error, (response,), classified)
}

/// Whether the classifier `H` has nothing to say about `response`.
pub open spec fn declines<H: ErrorHandler>(response: Response) -> bool {
    forall|classified: Option<Error>| #[trigger]
        classifies::<H>(response, classified) ==> classified is None
}

/// The payload of a request without a body, and of a reply whose body, if
/// any, carries nothing.
#[derive(Debug, Clone, Copy, PartialEq, Eq, Structural)]
pub struct EmptyBody;

impl RequestBody for EmptyBody {
    /// An empty value is sent as a request without a body.
    fn encode(&self) -> (r: Result<Option<Vec<u8>>, Error>)
        ensures
            r == Ok::<Option<Vec<u8>>, Error>(None),
    {
        Ok(None)
    }
}

impl ResponseBody for EmptyBody {
    /// Accepts any body, an empty one too: reading never fails.
    fn decode(response: Response) -> (r: Result<Self, Error>)
        ensures
            r == Ok::<EmptyBody, Error>(EmptyBody),
    {
        Ok(EmptyBody)
    }
}

/// The classifier that always declines.
#[derive(Debug, Clone, Copy, PartialEq, Eq, Structural)]
pub struct NullErrorHandler;

impl ErrorHandler for NullErrorHandler {
    fn get_error(response: Response) -> (r: Option<Error>)
        ensures
            r is None,
    {
        None
    }
}

/// The classifier that always declines does decline, whatever the reply.
pub proof fn lemma_null_handler_declines(response: Response)
    ensures
        declines::<NullErrorHandler>(response),
{
}

/// Reading a reply as an empty value never fails, whatever its body holds.
pub proof fn lemma_empty_body_always_decodes(response: Response, value: Result<EmptyBody, Error>)
    requires
        decodes::<EmptyBody>(response, value),
    ensures
        value == Ok::<EmptyBody, Error>(EmptyBody),
{
}

} // verus!
