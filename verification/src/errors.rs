//! Tagged error types, one per operation, so that callers branch on kind
//! instead of parsing text.

use vstd::prelude::*;

verus! {

/// A state accessor was called before the synchronizer finished loading.
#[derive(Clone, Copy, Debug, PartialEq, Eq, Structural)]
pub enum StateError {
    NotLoaded,
}

/// A remote call failed; carries the transport's description of the
/// failure.
#[derive(Clone, Debug, PartialEq, Eq)]
pub struct RemoteError {
    pub message: String,
}

/// Writing a snapshot to the persistent store failed. The in-memory state
/// change that preceded the write is kept, not rolled back.
#[derive(Clone, Copy, Debug, PartialEq, Eq, Structural)]
pub struct PersistenceError {}

/// A required remote fetch failed during the initial load. Cache misses
/// are not errors: they silently fall through to the remote fetch.
#[derive(Clone, Debug, PartialEq, Eq)]
pub enum LoadError {
    FailedToLoadEnv(RemoteError),
    FailedToLoadClient(RemoteError),
}

/// Token issuance failed. A missing session or user is not an error: it
/// is a successful `None` result.
#[derive(Clone, Debug, PartialEq, Eq)]
pub enum GetTokenError {
    NotLoaded,
    ApiError(RemoteError),
}

/// Switching the active session or organization failed.
#[derive(Clone, Debug, PartialEq, Eq)]
pub enum SetActiveError {
    NotLoaded,
    SessionNotFound,
    OrganizationNotFound,
    ApiError(RemoteError),
}

} // verus!
