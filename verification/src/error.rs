//! Error types shared by every fetch operation.
//!
//! All failures originate either from the HTTP transport (network error,
//! non-success status, malformed response body) or from base-URL parsing
//! at client construction time. Both are carried as plain values so that
//! verified code can match on them.

use vstd::prelude::*;

verus! {

/// The errors that a fetch operation can report.
#[derive(Debug, PartialEq, Eq)]
pub enum LibVeeziError {
    /// The HTTP transport failed: a network error, a non-success HTTP
    /// status, or a response body that could not be decoded. The payload
    /// is a human-readable description produced by the transport.
    Http(String),
    /// The base URL handed to the client builder could not be parsed.
    UrlParse(String),
}

impl LibVeeziError {
    /// A human-readable description of the error.
    pub fn message(&self) -> (r: String)
        ensures
            self matches LibVeeziError::Http(m) ==> r@ == m@,
            self matches LibVeeziError::UrlParse(m) ==> r@ == m@,
    {
        match self {
            LibVeeziError::Http(m) => m.clone(),
            LibVeeziError::UrlParse(m) => m.clone(),
        }
    }
}

/// The result type used by every fetch operation.
pub type ApiResult<T> = Result<T, LibVeeziError>;

} // verus!
