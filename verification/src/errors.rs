//! The closed error taxonomy produced by the request pipeline.
//!
//! Every failure a caller can see is one of these kinds; the pipeline never
//! swallows an error.

use vstd::prelude::*;

verus! {

/// The mathematical value of an [`Error`].
pub enum ErrorV {
    Authentication(Seq<char>),
    NotFound(Seq<char>),
    RateLimit { retry_after: u64 },
    Validation(Seq<char>),
    Connection(Seq<char>),
    Serialization(Seq<char>),
    Api { status: u16, message: Seq<char> },
}

/// Errors surfaced by the client.
#[derive(Debug, PartialEq, Eq)]
pub enum Error {
    /// Invalid or missing API key.
    Authentication(String),
    /// Resource not found; carries the raw response body text.
    NotFound(String),
    /// Rate limit exceeded; carries a retry-after hint in seconds.
    RateLimit { retry_after: u64 },
    /// The server rejected the request as invalid; carries the raw body text.
    Validation(String),
    /// Network or connection failure.
    Connection(String),
    /// The response body could not be decoded as the expected shape.
    Serialization(String),
    /// Any other non-success HTTP response.
    Api { status: u16, message: String },
}

impl View for Error {
    type V = ErrorV;

    open spec fn view(&self) -> ErrorV {
        match self {
            Error::Authentication(m) => ErrorV::Authentication(m@),
            Error::NotFound(m) => ErrorV::NotFound(m@),
            Error::RateLimit { retry_after } => ErrorV::RateLimit { retry_after: *retry_after },
            Error::Validation(m) => ErrorV::Validation(m@),
            Error::Connection(m) => ErrorV::Connection(m@),
            Error::Serialization(m) => ErrorV::Serialization(m@),
            Error::Api { status, message } => ErrorV::Api { status: *status, message: message@ },
        }
    }
}

} // verus!
