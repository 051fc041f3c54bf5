//! Pluggable persistence for cached snapshots, and the authorization
//! bookkeeping that rides along with every request.

use vstd::prelude::*;
use vstd::string::StringExecFns;

use crate::model::{Client, Environment};

verus! {

/// Key-value persistence for cached entities: browser storage, a file, or
/// an in-memory map. The synchronizer only requires get/set semantics; a
/// failed read is treated as a cache miss and a failed write is reported
/// without rolling back the in-memory state.
///
/// Implementations own their key scheme (conventionally `"environment"`,
/// `"client"`, and an authorization key namespaced by a prefix, see
/// [`AuthorizationMiddleware::get_auth_key`]) and their serialization.
/// No transactional guarantee is required between keys: a persistence
/// interruption can leave one snapshot newer than the other.
pub trait Store {
    /// The cached environment, if one was persisted and still
    /// deserializes.
    fn get_environment(&self) -> Option<Environment>;

    /// Persists the environment snapshot; `false` reports a
    /// serialization or storage failure.
    fn set_environment(&self, environment: &Environment) -> bool;

    /// The cached client, if one was persisted and still deserializes.
    fn get_client(&self) -> Option<Client>;

    /// Persists the client snapshot; `false` reports a serialization or
    /// storage failure.
    fn set_client(&self, client: &Client) -> bool;

    /// The persisted authorization header value, if any.
    fn get_authorization(&self) -> Option<String>;

    /// Persists (or clears) the authorization header value.
    fn set_authorization(&self, value: Option<String>);
}

/// The decision half of the transport's authorization middleware: it
/// reads the persisted bearer token to put on an outgoing request and
/// records the one a response carries. The embedding program applies it
/// around every request it sends.
pub struct AuthorizationMiddleware<S: Store> {
    pub store: S,
    pub store_prefix: String,
}

impl<S: Store> AuthorizationMiddleware<S> {
    pub fn new(store: S, store_prefix: String) -> (r: AuthorizationMiddleware<S>)
        ensures
            r.store == store,
            r.store_prefix == store_prefix,
    {
        AuthorizationMiddleware { store, store_prefix }
    }

    /// The store key under which the authorization value lives: the
    /// configured prefix followed by `authorization`.
    pub fn get_auth_key(&self) -> (r: String)
        ensures
            r@ == self.store_prefix@ + "authorization"@,
    {
        let mut key = self.store_prefix.clone();
        key.append("authorization");
        key
    }

    /// The authorization value to place on an outgoing request, if one
    /// has been recorded.
    pub fn request_authorization(&self) -> Option<String> {
        self.store.get_authorization()
    }

    /// Records the authorization value a response carried, so later
    /// requests present it.
    pub fn record_authorization(&self, value: String) {
        self.store.set_authorization(Some(value));
    }
}

} // verus!
