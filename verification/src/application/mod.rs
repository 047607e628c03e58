//! The application API: everything under `api/application`.
//!
//! A [`Client`] is bound to one panel and one credential.  A call runs in two
//! halves around the dispatch, which the caller performs: [`Client::request`]
//! or [`Client::request_with_body`] prepares the request, and
//! [`Client::get_response`] or [`Client::receive`] judges what came back.

use crate::error::{failure_error, status_error, Error};
use crate::http::{
    body_view, classifies, declines, decodes, encodes, find_header, header_value, is_success,
    status_is_success, EmptyBody, ErrorHandler, Header, Method, NullErrorHandler, Outcome, Request,
    RequestBody, Response, ResponseBody,
};
use crate::text::{parse_u32, parsed_u32};
use vstd::prelude::*;
use vstd::string::{StrSliceExecFns, StringExecFns};

/// Nest- and egg-related endpoints for the application API
pub mod nests;
/// Node- and allocation-related endpoints for the application API
pub mod nodes;
/// Server-related endpoints for the application API
pub mod servers;
/// Data structures for the application API
pub mod structs;

verus! {

/// The header that carries the number of requests permitted per window.
pub const LIMIT_HEADER: &'static str = "x-ratelimit-limit";

/// The header that carries the number of requests left in the current window.
pub const REMAINING_HEADER: &'static str = "x-ratelimit-remaining";

/// The path below the panel's address under which the application API lives.
pub const API_PATH: &'static str = "api/application/";

/// The rate limits of the API key
#[derive(Debug, Copy, Clone, PartialEq, Eq, Structural)]
pub struct RateLimits {
    /// The request limit per minute
    pub limit: u32,
    /// The number of requests remaining in this minute
    pub limit_remaining: u32,
}

/// The number that the first header named `name` carries, if it is there and
/// reads as a `u32`.
pub open spec fn header_u32(headers: Seq<Header>, name: Seq<char>) -> Option<u32> {
    match header_value(headers, name) {
        Some(value) => parsed_u32(value),
        None => None,
    }
}

/// The quota that a set of headers reports: both counters, or nothing.
pub open spec fn quota_in(headers: Seq<Header>) -> Option<RateLimits> {
    match (header_u32(headers, LIMIT_HEADER@), header_u32(headers, REMAINING_HEADER@)) {
        (Some(limit), Some(limit_remaining)) => Some(RateLimits { limit, limit_remaining }),
        _ => None,
    }
}

/// The snapshot after a set of headers has been seen: what they report where
/// they report a quota, the earlier snapshot otherwise.
pub open spec fn recorded(before: Option<RateLimits>, headers: Seq<Header>) -> Option<
    RateLimits,
> {
    match quota_in(headers) {
        Some(quota) => Some(quota),
        None => before,
    }
}

/// The snapshot after an outcome has been judged: only a successful reply is
/// read for its quota.
pub open spec fn quota_after(before: Option<RateLimits>, outcome: Outcome) -> Option<RateLimits> {
    match outcome {
        Outcome::Replied(response) => if status_is_success(response.status) {
            recorded(before, response.headers@)
        } else {
            before
        },
        Outcome::TransportFailed => before,
    }
}

/// What an outcome amounts to, given what the classifier made of a failed
/// reply: the reply itself where its status is a success, and otherwise the
/// error of the transport, of the classifier, or of the status table, in that
/// order.
pub open spec fn judged(outcome: Outcome, classified: Option<Error>) -> Result<Response, Error> {
    match outcome {
        Outcome::TransportFailed => Err(Error::Network),
        Outcome::Replied(response) => if status_is_success(response.status) {
            Ok(response)
        } else {
            Err(failure_error(response.status, classified))
        },
    }
}

/// Whether `r` is what an outcome amounts to under the classifier `H`,
/// which is asked about failed replies only.
pub open spec fn judges<H: ErrorHandler>(outcome: Outcome, r: Result<Response, Error>) -> bool {
    match outcome {
        Outcome::TransportFailed => r == judged(outcome, None),
        Outcome::Replied(response) => if status_is_success(response.status) {
            r == judged(outcome, None)
        } else {
            exists|classified: Option<Error>| #[trigger]
                classifies::<H>(response, classified) && r == judged(outcome, classified)
        },
    }
}

/// Whether `r` is what an outcome amounts to once it has been judged by the
/// classifier that always declines and the body of a successful reply has
/// been read as a `Resp`.
pub open spec fn receives<Resp: ResponseBody>(outcome: Outcome, r: Result<Resp, Error>) -> bool {
    match judged(outcome, None) {
        Ok(response) => decodes::<Resp>(response, r),
        Err(e) => r == Err::<Resp, Error>(e),
    }
}

/// The address that a panel's URL is normalised to: one `/` at its end where
/// it had none, then the path of the application API.
pub open spec fn api_base(url: Seq<char>) -> Seq<char> {
    if url.len() > 0 && url.last() == '/' {
        url + API_PATH@
    } else {
        url.push('/') + API_PATH@
    }
}

/// Whether an address ends in a `/` and the path of the application API, as
/// every normalised address does.
pub open spec fn is_api_base(base: Seq<char>) -> bool {
    let tail = "/"@ + API_PATH@;
    base.len() >= tail.len() && base.subrange(base.len() - tail.len(), base.len() as int) == tail
}

/// A normalised address ends in a `/` and the path of the application API,
/// whatever it was made from.
pub proof fn lemma_api_base_is_normalised(url: Seq<char>)
    ensures
        is_api_base(api_base(url)),
{
    reveal_strlit("/");
    reveal_strlit("api/application/");
    let tail = "/"@ + API_PATH@;
    let base = api_base(url);
    assert(base.subrange(base.len() - tail.len(), base.len() as int) =~= tail);
}

/// The three headers that every request carries, in order.
pub open spec fn standard_headers(headers: Seq<Header>, credential: Seq<char>) -> bool {
    &&& headers.len() == 3
    &&& headers[0].holds("Accept"@, "application/json"@)
    &&& headers[1].holds("Content-Type"@, "application/json"@)
    &&& headers[2].holds("Authorization"@, "Bearer "@ + credential)
}

impl RateLimits {
    /// Reads the quota that a reply's headers report.
    pub fn from_headers(headers: &Vec<Header>) -> (quota: Option<RateLimits>)
        ensures
            quota == quota_in(headers@),
    {
        let limit = match find_header(headers, LIMIT_HEADER) {
            Some(value) => parse_u32(value.as_slice()),
            None => None,
        };
        match limit {
            Some(limit) => {
                let remaining = match find_header(headers, REMAINING_HEADER) {
                    Some(value) => parse_u32(value.as_slice()),
                    None => None,
                };
                match remaining {
                    Some(limit_remaining) => Some(RateLimits { limit, limit_remaining }),
                    None => None,
                }
            },
            None => None,
        }
    }
}

/// A Pterodactyl application client, to make requests to the Pterodactyl application API
#[derive(Debug)]
pub struct Client {
    url: String,
    api_key: String,
    rate_limits: Option<RateLimits>,
}

impl Client {
    /// The address is normalised when the client is built and stays so.
    #[verifier::type_invariant]
    closed spec fn normalised(&self) -> bool {
        is_api_base(self.url@)
    }

    /// The address that every endpoint is appended to.
    pub closed spec fn base_url(&self) -> Seq<char> {
        self.url@
    }

    /// The bearer token that every request carries.
    pub closed spec fn credential(&self) -> Seq<char> {
        self.api_key@
    }

    /// The last quota that a successful reply reported.
    pub closed spec fn quota(&self) -> Option<RateLimits> {
        self.rate_limits
    }

    /// Whether two clients differ at most in the quota they remember.
    pub open spec fn configured_as(&self, other: &Client) -> bool {
        &&& self.base_url() == other.base_url()
        &&& self.credential() == other.credential()
    }

    /// Whether `request` is the request for `endpoint` under this client:
    /// the method, the absolute address, the standard headers and the body.
    pub open spec fn prepares(
        &self,
        request: Request,
        method: Method,
        endpoint: Seq<char>,
        body: Option<Seq<u8>>,
    ) -> bool {
        &&& request.method == method
        &&& request.url@ == self.base_url() + endpoint
        &&& standard_headers(request.headers@, self.credential())
        &&& body_view(request.body) == body
    }

    /// Whether `r` is what preparing a request comes to once the encoding of
    /// its body is known: the request with that body, or the error that
    /// encoding ended in.
    pub open spec fn prepared(
        &self,
        method: Method,
        endpoint: Seq<char>,
        encoded: Result<Option<Vec<u8>>, Error>,
        r: Result<Request, Error>,
    ) -> bool {
        match encoded {
            Ok(body) => r is Ok && self.prepares(r->Ok_0, method, endpoint, body_view(body)),
            Err(e) => r == Err::<Request, Error>(e),
        }
    }

    /// Whether `r` is what preparing a request with the payload `body`
    /// comes to.
    pub open spec fn prepares_with<Body: RequestBody>(
        &self,
        method: Method,
        endpoint: Seq<char>,
        body: &Body,
        r: Result<Request, Error>,
    ) -> bool {
        exists|encoded: Result<Option<Vec<u8>>, Error>| #[trigger]
            encodes(body, encoded) && self.prepared(method, endpoint, encoded, r)
    }

    /// Gets the rate limit information after the previous request
    pub fn get_rate_limits(&self) -> (quota: Option<RateLimits>)
        ensures
            quota == self.quota(),
    {
        self.rate_limits
    }

    /// The address that every endpoint is appended to.  It ends in a `/` and
    /// the path of the application API.
    pub fn url(&self) -> (url: &str)
        ensures
            url@ == self.base_url(),
            is_api_base(url@),
    {
        proof {
            use_type_invariant(self);
        }
        self.url.as_str()
    }

    /// The bearer token that every request carries.
    pub fn api_key(&self) -> (key: &str)
        ensures
            key@ == self.credential(),
    {
        self.api_key.as_str()
    }

    /// Translates an HTTP status code to an error
    pub fn translate_error(status: u16) -> (e: Error)
        ensures
            e == status_error(status),
    {
        if status == 403 {
            Error::PermissionError
        } else if status == 404 {
            Error::ResourceNotFound
        } else if status == 429 {
            Error::RateLimit
        } else {
            Error::Http(status)
        }
    }

    /// The error that a failed reply ends in, given what its classifier made
    /// of it.
    pub fn resolve_failure(status: u16, classified: Option<Error>) -> (e: Error)
        ensures
            e == failure_error(status, classified),
    {
        match classified {
            Some(e) => e,
            None => Self::translate_error(status),
        }
    }

    /// Prepares a request without a body.
    pub fn request(&self, method: Method, endpoint: &str) -> (request: Request)
        ensures
            self.prepares(request, method, endpoint@, None),
    {
        self.assemble(method, endpoint, None)
    }

    /// Prepares a request that carries `body`.  Nothing is prepared where the
    /// body has no encoding: the error of the encoding is handed on.
    pub fn request_with_body<Body: RequestBody>(
        &self,
        method: Method,
        endpoint: &str,
        body: &Body,
    ) -> (r: Result<Request, Error>)
        ensures
            self.prepares_with(method, endpoint@, body, r),
    {
        let encoded = body.encode();
        let ghost witness = encoded;
        let r = self.prepare(method, endpoint, encoded);
        assert(encodes(body, witness) && self.prepared(method, endpoint@, witness, r));
        r
    }

    /// Prepares a request from the outcome of encoding its body.
    pub fn prepare(
        &self,
        method: Method,
        endpoint: &str,
        encoded: Result<Option<Vec<u8>>, Error>,
    ) -> (r: Result<Request, Error>)
        ensures
            self.prepared(method, endpoint@, encoded, r),
    {
        match encoded {
            Ok(body) => Ok(self.assemble(method, endpoint, body)),
            Err(e) => Err(e),
        }
    }

    /// Puts a request together from its parts.
    pub fn assemble(&self, method: Method, endpoint: &str, body: Option<Vec<u8>>) -> (request:
        Request)
        ensures
            self.prepares(request, method, endpoint@, body_view(body)),
    {
        let mut url = self.url.clone();
        url.append(endpoint);
        let mut bearer = "Bearer ".to_owned();
        bearer.append(self.api_key.as_str());
        let mut headers: Vec<Header> = Vec::new();
        headers.push(Header::new("Accept", "application/json"));
        headers.push(Header::new("Content-Type", "application/json"));
        headers.push(Header::new("Authorization", bearer.as_str()));
        Request { method, url, headers, body }
    }

    /// Replaces the remembered quota by the one that `headers` report, if
    /// they report one.
    pub fn record(&mut self, headers: &Vec<Header>)
        ensures
            final(self).quota() == recorded(old(self).quota(), headers@),
            final(self).configured_as(old(self)),
    {
        proof {
            use_type_invariant(&*self);
        }
        match RateLimits::from_headers(headers) {
            Some(quota) => {
                self.rate_limits = Some(quota);
            },
            None => {},
        }
    }

    /// Judges what dispatching a request led to, without touching any
    /// client: the reply itself where its status is a success, and otherwise
    /// the error of the transport, of the classifier, or of the status table.
    /// The classifier is asked about failed replies only.
    pub fn judge<EHandler: ErrorHandler>(outcome: Outcome) -> (r: Result<Response, Error>)
        ensures
            judges::<EHandler>(outcome, r),
    {
        match outcome {
            Outcome::TransportFailed => Err(Error::Network),
            Outcome::Replied(response) => {
                if !is_success(response.status) {
                    let status = response.status;
                    let classified = EHandler::get_error(response);
                    assert(classifies::<EHandler>(response, classified));
                    return Err(Self::resolve_failure(status, classified));
                }
                Ok(response)
            },
        }
    }

    /// Judges what dispatching a request led to.  A successful reply is read
    /// for its quota and handed back; any other outcome becomes an error and
    /// leaves the quota as it was.
    pub fn get_response<EHandler: ErrorHandler>(&mut self, outcome: Outcome) -> (r: Result<
        Response,
        Error,
    >)
        ensures
            judges::<EHandler>(outcome, r),
            final(self).quota() == quota_after(old(self).quota(), outcome),
            final(self).configured_as(old(self)),
    {
        match Self::judge::<EHandler>(outcome) {
            Ok(response) => {
                self.record(&response.headers);
                Ok(response)
            },
            Err(e) => Err(e),
        }
    }

    /// Judges an outcome with the classifier that always declines, and reads
    /// the body of a successful reply as a `Resp`.
    pub fn receive<Resp: ResponseBody>(&mut self, outcome: Outcome) -> (r: Result<Resp, Error>)
        ensures
            receives::<Resp>(outcome, r),
            final(self).quota() == quota_after(old(self).quota(), outcome),
            final(self).configured_as(old(self)),
    {
        match self.get_response::<NullErrorHandler>(outcome) {
            Ok(response) => Resp::decode(response),
            Err(e) => Err(e),
        }
    }
}

/// A builder for an application client
#[derive(Debug)]
pub struct ClientBuilder {
    url: String,
    api_key: String,
}

impl ClientBuilder {
    /// The address is normalised when the builder is made and stays so.
    #[verifier::type_invariant]
    closed spec fn normalised(&self) -> bool {
        is_api_base(self.url@)
    }

    /// The normalised address that the client will have.
    pub closed spec fn base_url(&self) -> Seq<char> {
        self.url@
    }

    /// The bearer token that the client will have.
    pub closed spec fn credential(&self) -> Seq<char> {
        self.api_key@
    }

    /// Creates a new application client builder, connecting to the given URL where a Pterodactyl server is
    /// hosted, using the given API key for authentication
    pub fn new(url: &str, api_key: &str) -> (builder: Self)
        ensures
            builder.base_url() == api_base(url@),
            builder.credential() == api_key@,
    {
        let mut base = url.to_owned();
        let n = url.unicode_len();
        if n == 0 || url.get_char(n - 1) != '/' {
            proof {
                reveal_strlit("/");
            }
            base.append("/");
            assert(base@ =~= url@.push('/'));
        }
        base.append(API_PATH);
        proof {
            lemma_api_base_is_normalised(url@);
        }
        Self { url: base, api_key: api_key.to_owned() }
    }

    /// Builds a client
    pub fn build(self) -> (client: Client)
        ensures
            client.base_url() == self.base_url(),
            client.credential() == self.credential(),
            client.quota() is None,
    {
        proof {
            use_type_invariant(&self);
        }
        Client { url: self.url, api_key: self.api_key, rate_limits: None }
    }
}

/// Under a classifier that declines, a reply with status 403, 404 or 429 is
/// judged as a permission error, a missing resource or an exhausted quota,
/// whatever its headers and body hold.
pub proof fn lemma_status_table<H: ErrorHandler>(response: Response, r: Result<Response, Error>)
    requires
        declines::<H>(response),
        judges::<H>(Outcome::Replied(response), r),
    ensures
        response.status == 403 ==> r == Err::<Response, Error>(Error::PermissionError),
        response.status == 404 ==> r == Err::<Response, Error>(Error::ResourceNotFound),
        response.status == 429 ==> r == Err::<Response, Error>(Error::RateLimit),
{
}

/// A reply with status 403, 404 or 429 whose body was to be read as a
/// `Resp` ends in a permission error, a missing resource or an exhausted
/// quota, whatever its headers and body hold and whatever `Resp` is.
pub proof fn lemma_status_table_received<Resp: ResponseBody>(
    response: Response,
    r: Result<Resp, Error>,
)
    requires
        receives::<Resp>(Outcome::Replied(response), r),
    ensures
        response.status == 403 ==> r == Err::<Resp, Error>(Error::PermissionError),
        response.status == 404 ==> r == Err::<Resp, Error>(Error::ResourceNotFound),
        response.status == 429 ==> r == Err::<Resp, Error>(Error::RateLimit),
{
}

/// After a successful reply whose two quota headers both read as numbers,
/// the snapshot holds exactly those numbers; where either is missing or does
/// not read as a number, the snapshot is what it was.
pub proof fn lemma_quota_follows_headers(before: Option<RateLimits>, response: Response)
    requires
        status_is_success(response.status),
    ensures
        match (
            header_u32(response.headers@, LIMIT_HEADER@),
            header_u32(response.headers@, REMAINING_HEADER@),
        ) {
            (Some(limit), Some(limit_remaining)) => quota_after(
                before,
                Outcome::Replied(response),
            ) == Some(RateLimits { limit, limit_remaining }),
            _ => quota_after(before, Outcome::Replied(response)) == before,
        },
{
}

/// Seeing the same headers twice leaves the snapshot that seeing them once
/// leaves: the last reply wins and nothing adds up.
pub proof fn lemma_record_idempotent(before: Option<RateLimits>, first: Response, second: Response)
    requires
        status_is_success(first.status),
        status_is_success(second.status),
        first.headers@ == second.headers@,
    ensures
        recorded(recorded(before, first.headers@), second.headers@) == recorded(
            before,
            first.headers@,
        ),
        quota_after(quota_after(before, Outcome::Replied(first)), Outcome::Replied(second))
            == quota_after(before, Outcome::Replied(first)),
{
}

/// A value without content survives the round trip: it is sent as a request
/// without a body, and any successful reply, with a body of any length or
/// none, reads back as the same value.
pub proof fn lemma_empty_body_round_trip(
    encoded: Result<Option<Vec<u8>>, Error>,
    response: Response,
    back: Result<EmptyBody, Error>,
)
    requires
        encodes(&EmptyBody, encoded),
        status_is_success(response.status),
        receives::<EmptyBody>(Outcome::Replied(response), back),
    ensures
        encoded == Ok::<Option<Vec<u8>>, Error>(None),
        back == Ok::<EmptyBody, Error>(EmptyBody),
{
}

/// A failed call never touches the snapshot: not when the transport fails,
/// and not when the panel answers with a status outside 200 to 299.
pub proof fn lemma_failure_keeps_quota(before: Option<RateLimits>, outcome: Outcome)
    requires
        judged(outcome, None) is Err,
    ensures
        quota_after(before, outcome) == before,
{
}

} // verus!
