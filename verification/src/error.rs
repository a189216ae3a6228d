//! The error taxonomy of the crate: typed, recoverable failures returned
//! to the caller. Nothing in the library retries or aborts.

use vstd::prelude::*;

use crate::query::ResourceComponent;
use crate::response::MessageType;

verus! {

/// All failures this crate reports.
#[derive(Debug, Clone)]
pub enum ErrorKind {
    /// an unknown work type identifier was requested
    InvalidTypeName { name: String },
    /// the response carried another item than the calling operation expected
    UnexpectedItem { expected: MessageType, got: MessageType },
    /// a client could not be configured
    Config { msg: String },
    /// the transport collaborator failed to carry the request
    Transport { msg: String },
    /// the envelope decoded without a `message` although one was expected
    MissingMessage { expected: MessageType },
    /// the server answered with its `Resource not found` sentinel body
    ResourceNotFound { resource: ResourceComponent },
    /// the body was not valid JSON, or the payload did not have the shape
    /// the discriminant demands; carries the underlying cause
    Serde { error: String },
}

/// An error that can occur while interacting with the Crossref API.
#[derive(Debug, Clone)]
pub struct Error {
    /// what went wrong
    pub kind: ErrorKind,
}

impl Error {
    /// Wraps an [`ErrorKind`].
    pub fn from_kind(kind: ErrorKind) -> (r: Error)
        ensures
            r.kind == kind,
    {
        Error { kind }
    }
}

} // verus!
