//! The error taxonomy of the client.
//!
//! Transport failures are the only retryable kind; everything else fails the
//! call at once.

use vstd::prelude::*;

verus! {

/// What can go wrong while executing a request.
#[derive(Debug)]
pub enum HttpError {
    /// A network-level failure reported by the transport engine.
    Transport(String),
    /// A JSON decode failure, with its diagnostic text.
    Deserialization(String),
    /// Any other failure of the pipeline itself, such as a base URL that the
    /// request path cannot be joined to.
    Custom(String),
}

impl HttpError {
    /// The diagnostic text the error carries.
    pub fn message(&self) -> (r: &String)
        ensures
            r@ == self.message_spec(),
    {
        match self {
            HttpError::Transport(m) => m,
            HttpError::Deserialization(m) => m,
            HttpError::Custom(m) => m,
        }
    }

    /// The text carried by any of the variants.
    pub open spec fn message_spec(self) -> Seq<char> {
        match self {
            HttpError::Transport(m) => m@,
            HttpError::Deserialization(m) => m@,
            HttpError::Custom(m) => m@,
        }
    }
}

pub type HttpResult<T> = Result<T, HttpError>;

} // verus!
