//! Errors returned synchronously by the orchestration API.
//!
//! Collector failures are not here: a failing collector is recorded in the
//! session's error list and never surfaces as an API error.

use vstd::prelude::*;

verus! {

/// Why a lookup, start or cancel request was rejected.
#[derive(Clone, Copy, Debug, PartialEq, Eq, Structural)]
pub enum ServiceError {
    /// No session with the given id exists.
    SessionNotFound,
    /// The session is not in a state that allows the requested transition
    /// (for example, cancelling a session that is not running).
    InvalidTransition,
    /// A freshly generated session id collided with an existing one.
    DuplicateSession,
    /// The session could not be set up (for example, the packager handed
    /// back an empty archive path).
    Setup,
}

impl ServiceError {
    /// The human-readable cause reported to API callers.
    pub open spec fn spec_message(self) -> Seq<char> {
        match self {
            ServiceError::SessionNotFound => "Session not found"@,
            ServiceError::InvalidTransition => "Session is not running"@,
            ServiceError::DuplicateSession => "Duplicate session id"@,
            ServiceError::Setup => "Session setup failed"@,
        }
    }

    pub fn message(&self) -> (r: String)
        ensures
            r@ == self.spec_message(),
    {
        match self {
            ServiceError::SessionNotFound => "Session not found".to_owned(),
            ServiceError::InvalidTransition => "Session is not running".to_owned(),
            ServiceError::DuplicateSession => "Duplicate session id".to_owned(),
            ServiceError::Setup => "Session setup failed".to_owned(),
        }
    }
}

} // verus!
