//! Client-side session state synchronizer for an identity provider's
//! frontend API.
//!
//! The library owns the authoritative in-memory view of the current
//! environment, client, session, user and organization, derives the
//! active entities from every accepted client snapshot, persists
//! snapshots through a pluggable [`store::Store`], and fans change
//! notifications out to registered [`coordinator::Listener`]s. Network
//! transport is left to the embedding program, which drives the
//! coordinator's explicit request/outcome steps.

pub mod coordinator;
pub mod errors;
pub mod laws;
pub mod model;
pub mod state;
pub mod store;
