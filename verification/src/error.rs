//! The closed set of failures that a call can end in.

use vstd::prelude::*;

verus! {

/// Why a call to the panel failed.
#[derive(Debug, Clone, PartialEq, Eq)]
pub enum Error {
    /// The panel answered 403: the credential may not do this.
    PermissionError,
    /// The panel answered 404.
    ResourceNotFound,
    /// The panel answered 429: the quota of the current window is used up.
    RateLimit,
    /// Any other status outside 200..=299, with its code.
    Http(u16),
    /// The payload could not be turned into a request body.
    Encoding,
    /// The body of a successful reply did not have the expected shape.
    Decoding,
    /// The transport failed before any reply arrived.
    Network,
    /// A failure that only an operation's own classifier can recognise,
    /// with what it read from the reply.
    Operation(String),
}

/// The error that a failing status stands for when no classifier claims the reply.
pub open spec fn status_error(status: u16) -> Error {
    if status == 403 {
        Error::PermissionError
    } else if status == 404 {
        Error::ResourceNotFound
    } else if status == 429 {
        Error::RateLimit
    } else {
        Error::Http(status)
    }
}

/// The error that a reply ends in once its classifier has spoken: the
/// classifier's own error where it gave one, the status table otherwise.
pub open spec fn failure_error(status: u16, classified: Option<Error>) -> Error {
    match classified {
        Some(e) => e,
        None => status_error(status),
    }
}

} // verus!
