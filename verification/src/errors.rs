//! Failure taxonomy of the backing clients.
//!
//! Transport-level failures (a malformed request line, an unknown method)
//! never take this form: they are rendered directly by the dispatcher as
//! protocol error envelopes. A `ClientError` is an operation-level failure,
//! surfaced to the caller as error-flagged content inside an otherwise
//! successful envelope.

use vstd::prelude::*;

verus! {

/// Why a backing-client operation failed.
#[derive(Debug)]
pub enum ClientError {
    /// A tool argument was rejected before any upstream work was done.
    InvalidArgument(String),
    /// The upstream has no matching package or version.
    NotFound(String),
    /// A required backing source is not initialized for this process.
    Unavailable(String),
    /// The upstream answered, but with a non-success status or a payload
    /// that did not parse against the expected shape.
    Upstream(String),
    /// A value that had to be read out of an upstream reply could not be
    /// located in it.
    Parse(String),
}

impl ClientError {
    /// The human-readable text carried by the error, whatever its class.
    pub open spec fn spec_message(&self) -> Seq<char> {
        match self {
            ClientError::InvalidArgument(m) => m@,
            ClientError::NotFound(m) => m@,
            ClientError::Unavailable(m) => m@,
            ClientError::Upstream(m) => m@,
            ClientError::Parse(m) => m@,
        }
    }

    /// Borrow the message text.
    pub fn message(&self) -> (m: &String)
        ensures
            m@ == self.spec_message(),
    {
        match self {
            ClientError::InvalidArgument(m) => m,
            ClientError::NotFound(m) => m,
            ClientError::Unavailable(m) => m,
            ClientError::Upstream(m) => m,
            ClientError::Parse(m) => m,
        }
    }
}

} // verus!
