//! The two small vocabularies of the handler: what it writes to the store,
//! and why it turns a request down.

use vstd::prelude::*;

verus! {

/// The status that the handler records for a runner. The store knows other
/// statuses too; these are the only two this crate ever writes.
#[derive(Clone, Copy, Debug, PartialEq, Eq, Structural)]
pub enum RunnerStatus {
    /// The last token request for the runner succeeded.
    Idle,
    /// The last token request for the runner reached the platform and failed.
    Error,
}

/// Why a request ended without a token.
#[derive(Clone, Copy, Debug, PartialEq, Eq, Structural)]
pub enum HandlerError {
    /// Owner, repository or credential was absent.
    MissingConfiguration,
    /// The store does not know the runner.
    UnknownRunner,
    /// The platform gave no token: no response, a status outside 2xx, or a
    /// body without a token.
    FetchFailed,
    /// The handler was given an answer to a question it had not asked.
    OutOfTurn,
}

impl HandlerError {
    /// The HTTP status under which the error leaves the server: 400 for an
    /// unknown runner, 500 for everything else.
    pub open spec fn http_status(self) -> u16 {
        match self {
            HandlerError::UnknownRunner => 400u16,
            _ => 500u16,
        }
    }

    /// The HTTP status code of the error.
    pub fn status_code(&self) -> (code: u16)
        ensures
            code == self.http_status(),
    {
        match self {
            HandlerError::UnknownRunner => 400,
            HandlerError::MissingConfiguration => 500,
            HandlerError::FetchFailed => 500,
            HandlerError::OutOfTurn => 500,
        }
    }
}

} // verus!
