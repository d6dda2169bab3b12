//! Error taxonomy of the service core.

use vstd::prelude::*;

verus! {

/// Every failure the core can surface to a request handler.
#[derive(Clone, Copy, Debug, PartialEq, Eq, Structural)]
pub enum ServiceError {
    /// Malformed input: no catalog identifier could be extracted.
    Validation,
    /// A proposal with the same catalog identifier already exists.
    Conflict,
    /// A mutation targeted a catalog identifier with no stored proposal.
    NotFound,
    /// The third-party catalog call failed or returned unparseable data.
    Upstream,
    /// The backing store is unreachable or failed for infrastructure reasons.
    Store,
}

impl ServiceError {
    /// Whether the error is the caller's fault (a client-error response)
    /// rather than the service's (a server-error response).
    pub fn is_client_error(&self) -> (r: bool)
        ensures
            r == (*self == ServiceError::Validation || *self == ServiceError::Conflict
                || *self == ServiceError::NotFound),
    {
        match self {
            ServiceError::Validation => true,
            ServiceError::Conflict => true,
            ServiceError::NotFound => true,
            ServiceError::Upstream => false,
            ServiceError::Store => false,
        }
    }
}

} // verus!
