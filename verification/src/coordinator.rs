//! The session coordinator: the externally callable operations that
//! combine remote calls with state updates.
//!
//! Remote calls are suspension points that the verified core cannot make
//! itself, so every operation that needs the network is split into
//! decision steps: the coordinator hands the embedding program an explicit
//! request value, the program performs the call, and feeds the typed
//! outcome back. Each step's contract pins down exactly which request is
//! owed for which state and how the state changes.

use vstd::prelude::*;

use crate::errors::{GetTokenError, LoadError, PersistenceError, RemoteError, SetActiveError,
    StateError};
use crate::model::{Client, Environment, Organization, OrganizationMembership, Session, User};
use crate::model::{
    find_membership_index_answering, find_session_index,
    lemma_membership_index_answering_is_first_match, lemma_session_index_for_is_first_match,
    membership_index_answering, session_index_for,
};
use crate::state::{SessionState, set_client_post};
use crate::store::Store;

verus! {

/// A subscriber notified with a consistent snapshot whenever the client
/// changes: the current client and the derived session, user and
/// organization. Implementations that can fail should isolate their own
/// failures; the coordinator calls every registered listener in order.
pub trait Listener {
    fn on_update(
        &self,
        client: &Client,
        session: Option<&Session>,
        user: Option<&User>,
        organization: Option<&Organization>,
    );
}

/// What the initial load found in the persistent store before any remote
/// fetch.
#[derive(Clone, Debug, PartialEq, Eq)]
pub struct LoadPlan {
    pub cached_environment: Option<Environment>,
    pub cached_client: Option<Client>,
}

/// Which of the two snapshots the completed load took from the cache.
#[derive(Clone, Copy, Debug, PartialEq, Eq, Structural)]
pub struct LoadOutcome {
    pub environment_from_cache: bool,
    pub client_from_cache: bool,
}

/// The remote token-creation request owed for the current state: plain,
/// or qualified by a template name. The organization scope rides along
/// only on plain requests.
#[derive(Clone, Debug, PartialEq, Eq)]
pub enum TokenRequest {
    Plain { session_id: String, organization_id: Option<String> },
    WithTemplate { session_id: String, template: String },
}

/// The remote revocation a sign-out requires: one session, or all of the
/// client's sessions while the device identity is retained.
#[derive(Clone, Debug, PartialEq, Eq)]
pub enum SignOutRequest {
    RemoveSession { session_id: String },
    RemoveAllSessions,
}

/// What a partially resolved `set_active` still needs: the session to
/// touch and the organization id or slug still being resolved.
#[derive(Clone, Debug, PartialEq, Eq)]
pub struct SetActivePending {
    pub session_id: String,
    pub organization_query: String,
}

/// The next remote call a `set_active` step asks for: touch the session
/// (the resolution is complete), re-fetch the session's user, or list all
/// of the user's organization memberships.
#[derive(Clone, Debug, PartialEq, Eq)]
pub enum SetActiveAction {
    Touch { session_id: String, organization_id: Option<String> },
    FetchUser { pending: SetActivePending },
    FetchMemberships { pending: SetActivePending },
}

/// The token request owed for a derived session and the caller's
/// arguments.
pub open spec fn spec_token_request(
    s: Session,
    organization_id: Option<String>,
    template: Option<String>,
) -> TokenRequest {
    match template {
        Some(tpl) => TokenRequest::WithTemplate { session_id: s.id, template: tpl },
        None => TokenRequest::Plain { session_id: s.id, organization_id },
    }
}

/// The session `set_active` targets: the one named by the caller, looked
/// up in the current client, or the derived active session when the
/// caller names none.
pub open spec fn spec_target_session(st: SessionState, session_id: Option<String>) -> Option<
    Session,
> {
    match session_id {
        Some(sid) => match st.client {
            Some(c) => match session_index_for(c.sessions@, sid@) {
                Some(i) => Some(c.sessions@[i]),
                None => None,
            },
            None => None,
        },
        None => st.spec_session(),
    }
}

/// The organization id an id-or-slug query resolves to against a
/// membership list, if any.
pub open spec fn spec_list_resolution(
    memberships: Seq<OrganizationMembership>,
    q: Seq<char>,
) -> Option<String> {
    match membership_index_answering(memberships, q) {
        Some(j) => Some(memberships[j].organization.id),
        None => None,
    }
}

/// The organization id an id-or-slug query resolves to against a user's
/// membership list, if the user carries one.
pub open spec fn spec_membership_resolution(u: User, q: Seq<char>) -> Option<String> {
    match u.organization_memberships {
        Some(ms) => spec_list_resolution(ms@, q),
        None => None,
    }
}

/// The organization id an id-or-slug query resolves to against the target
/// session's embedded user, if any: the first, local tier of the lookup.
pub open spec fn spec_local_resolution(ts: Session, q: Seq<char>) -> Option<String> {
    match ts.user {
        Some(u) => spec_membership_resolution(u, q),
        None => None,
    }
}

/// The state with a one-shot organization target staged.
pub open spec fn spec_staged(pre: SessionState, target: Option<String>) -> SessionState {
    SessionState { target_organization_id: Some(target), ..pre }
}

/// Relates state and result of the first `set_active` step to its inputs:
/// a not-loaded coordinator and an unknown session id fail without any
/// state change; a locally resolved (or absent) organization target is
/// staged and the touch request issued; a local miss asks for the user
/// re-fetch and changes nothing yet.
pub open spec fn set_active_begin_post(
    pre: SessionState,
    session_id: Option<String>,
    organization_id_or_slug: Option<String>,
    post: SessionState,
    r: Result<SetActiveAction, SetActiveError>,
) -> bool {
    if !pre.loaded {
        &&& r matches Err(SetActiveError::NotLoaded)
        &&& post == pre
    } else {
        match spec_target_session(pre, session_id) {
            None => {
                &&& r matches Err(SetActiveError::SessionNotFound)
                &&& post == pre
            },
            Some(ts) => match organization_id_or_slug {
                None => {
                    &&& r matches Ok(SetActiveAction::Touch { session_id: tsid, organization_id: toid })
                        && tsid == ts.id && toid is None
                    &&& post == spec_staged(pre, None)
                },
                Some(q) => match spec_local_resolution(ts, q@) {
                    Some(oid) => {
                        &&& r matches Ok(SetActiveAction::Touch {
                            session_id: tsid,
                            organization_id: toid,
                        }) && tsid == ts.id && toid == Some(oid)
                        &&& post == spec_staged(pre, Some(oid))
                    },
                    None => {
                        &&& r matches Ok(SetActiveAction::FetchUser { pending })
                            && pending == (SetActivePending {
                            session_id: ts.id,
                            organization_query: q,
                        })
                        &&& post == pre
                    },
                },
            },
        }
    }
}

/// Relates state and result of the second `set_active` step (after the
/// user re-fetch) to its inputs: a remote failure propagates, a hit stages
/// the target and issues the touch request, a miss asks for the full
/// membership list and changes nothing yet.
pub open spec fn set_active_user_fetched_post(
    pre: SessionState,
    pending: SetActivePending,
    fetched: Result<User, RemoteError>,
    post: SessionState,
    r: Result<SetActiveAction, SetActiveError>,
) -> bool {
    match fetched {
        Err(e) => {
            &&& r matches Err(SetActiveError::ApiError(e2)) && e2 == e
            &&& post == pre
        },
        Ok(u) => match spec_membership_resolution(u, pending.organization_query@) {
            Some(oid) => {
                &&& r matches Ok(SetActiveAction::Touch { session_id: tsid, organization_id: toid })
                    && tsid == pending.session_id && toid == Some(oid)
                &&& post == spec_staged(pre, Some(oid))
            },
            None => {
                &&& r matches Ok(SetActiveAction::FetchMemberships { pending: p2 }) && p2 == pending
                &&& post == pre
            },
        },
    }
}

/// Relates state and result of the last `set_active` step (after the
/// membership list fetch) to its inputs: a remote failure propagates, a
/// hit stages the target and issues the touch request, and a miss — after
/// all three lookup tiers — fails with the organization-not-found error
/// and leaves the state unchanged.
pub open spec fn set_active_memberships_fetched_post(
    pre: SessionState,
    pending: SetActivePending,
    fetched: Result<Vec<OrganizationMembership>, RemoteError>,
    post: SessionState,
    r: Result<SetActiveAction, SetActiveError>,
) -> bool {
    match fetched {
        Err(e) => {
            &&& r matches Err(SetActiveError::ApiError(e2)) && e2 == e
            &&& post == pre
        },
        Ok(ms) => match spec_list_resolution(ms@, pending.organization_query@) {
            Some(oid) => {
                &&& r matches Ok(SetActiveAction::Touch { session_id: tsid, organization_id: toid })
                    && tsid == pending.session_id && toid == Some(oid)
                &&& post == spec_staged(pre, Some(oid))
            },
            None => {
                &&& r matches Err(SetActiveError::OrganizationNotFound)
                &&& post == pre
            },
        },
    }
}

/// The session coordinator: owns the session state store, the persistent
/// store handle and the listener registry. All methods are synchronous
/// critical sections; an embedding program that shares a coordinator
/// across tasks wraps it in a reader/writer lock and performs remote calls
/// between the steps, never inside them.
pub struct Clerk<S: Store, L: Listener> {
    pub state: SessionState,
    pub store: S,
    pub listeners: Vec<L>,
}

impl<S: Store, L: Listener> Clerk<S, L> {
    pub open spec fn wf(self) -> bool {
        self.state.wf()
    }

    /// A fresh coordinator over the given persistent store: nothing
    /// cached, nothing derived, no listeners, not loaded.
    pub fn new(store: S) -> (r: Clerk<S, L>)
        ensures
            r.wf(),
            r.state == SessionState::spec_init(),
            r.store == store,
            r.listeners@.len() == 0,
    {
        Clerk { state: SessionState::new(), store, listeners: Vec::new() }
    }

    /// Whether the initial load has completed. Once true, never reverts.
    pub fn loaded(&self) -> (r: bool)
        ensures
            r == self.state.loaded,
    {
        self.state.loaded
    }

    /// The cached environment; `NotLoaded` before the first successful
    /// load.
    pub fn environment(&self) -> (r: Result<&Environment, StateError>)
        requires
            self.wf(),
        ensures
            !self.state.loaded ==> r matches Err(StateError::NotLoaded),
            self.state.loaded ==> (r matches Ok(e) && self.state.environment == Some(*e)),
    {
        self.state.get_environment()
    }

    /// The current client snapshot; `NotLoaded` before the first
    /// successful load.
    pub fn client(&self) -> (r: Result<Option<&Client>, StateError>)
        requires
            self.wf(),
        ensures
            !self.state.loaded ==> r matches Err(StateError::NotLoaded),
            self.state.loaded ==> (r matches Ok(Some(c)) && self.state.client == Some(*c)),
    {
        self.state.get_client()
    }

    /// The derived active session; `None` when loaded but no session is
    /// active, `NotLoaded` before the first successful load.
    pub fn session(&self) -> (r: Result<Option<&Session>, StateError>)
        requires
            self.wf(),
        ensures
            !self.state.loaded ==> r matches Err(StateError::NotLoaded),
            self.state.loaded ==> (r matches Ok(s) && match s {
                Some(sr) => self.state.spec_session() == Some(*sr),
                None => self.state.spec_session() is None,
            }),
    {
        self.state.get_session()
    }

    /// The derived active user; `None` when loaded but no user is
    /// embedded, `NotLoaded` before the first successful load.
    pub fn user(&self) -> (r: Result<Option<&User>, StateError>)
        requires
            self.wf(),
        ensures
            !self.state.loaded ==> r matches Err(StateError::NotLoaded),
            self.state.loaded ==> (r matches Ok(u) && match u {
                Some(ur) => self.state.spec_user() == Some(*ur),
                None => self.state.spec_user() is None,
            }),
    {
        self.state.get_user()
    }

    /// The derived active organization; `None` when loaded but none is
    /// active, `NotLoaded` before the first successful load.
    pub fn organization(&self) -> (r: Result<Option<&Organization>, StateError>)
        requires
            self.wf(),
        ensures
            !self.state.loaded ==> r matches Err(StateError::NotLoaded),
            self.state.loaded ==> (r matches Ok(o) && match o {
                Some(or) => self.state.organization == Some(*or),
                None => self.state.organization is None,
            }),
    {
        self.state.get_organization()
    }

    /// The persisted authorization header value; `NotLoaded` before the
    /// first successful load.
    pub fn authorization_header(&self) -> (r: Result<Option<String>, StateError>)
        requires
            self.wf(),
        ensures
            !self.state.loaded ==> r matches Err(StateError::NotLoaded),
            self.state.loaded ==> r is Ok,
    {
        if !self.state.loaded {
            return Err(StateError::NotLoaded);
        }
        Ok(self.store.get_authorization())
    }

    /// Persists (or clears) the authorization header value the transport
    /// should present from now on.
    pub fn set_authorization_header(&self, value: Option<String>) {
        self.store.set_authorization(value);
    }

    /// Registers a listener, and — so late subscribers do not miss the
    /// current state — immediately invokes it once with the current
    /// snapshot when a client is already present.
    pub fn add_listener(&mut self, listener: L)
        requires
            old(self).wf(),
        ensures
            final(self).wf(),
            final(self).state == old(self).state,
            final(self).store == old(self).store,
            final(self).listeners@ == old(self).listeners@.push(listener),
    {
        self.listeners.push(listener);
        match &self.state.client {
            Some(c) => {
                let s = self.state.derived_session();
                let u = self.state.derived_user();
                let o = self.state.organization.as_ref();
                let idx = self.listeners.len() - 1;
                self.listeners[idx].on_update(c, s, u, o);
            },
            None => {},
        }
    }

    /// Calls every registered listener, in registration order, with a
    /// point-in-time copy of the current snapshot. No notification is
    /// sent while no client is present.
    fn notify_listeners(&self)
        requires
            self.wf(),
    {
        match &self.state.client {
            None => {},
            Some(c) => {
                let s = self.state.derived_session();
                let u = self.state.derived_user();
                let o = self.state.organization.as_ref();
                let n = self.listeners.len();
                let mut i: usize = 0;
                while i < n
                    invariant
                        i <= n,
                        n == self.listeners@.len(),
                    decreases n - i,
                {
                    self.listeners[i].on_update(c, s, u, o);
                    i += 1;
                }
            },
        }
    }

    /// Accepts a new client snapshot: rederives the active entities in one
    /// critical section, persists the snapshot, and notifies every
    /// listener. A persistence failure is reported but does not roll back
    /// the in-memory update.
    pub fn update_client(&mut self, client: Client) -> (r: Result<(), PersistenceError>)
        requires
            old(self).wf(),
        ensures
            final(self).wf(),
            set_client_post(old(self).state, client, final(self).state),
            final(self).store == old(self).store,
            final(self).listeners@ == old(self).listeners@,
    {
        self.state.set_client(client);
        let persisted = match &self.state.client {
            Some(c) => self.store.set_client(c),
            None => vstd::pervasive::unreached(),
        };
        self.notify_listeners();
        if persisted {
            Ok(())
        } else {
            Err(PersistenceError {})
        }
    }

    /// Replaces the cached environment and persists it. A persistence
    /// failure is reported but does not roll back the in-memory update.
    pub fn update_environment(&mut self, environment: Environment) -> (r: Result<
        (),
        PersistenceError,
    >)
        requires
            old(self).wf(),
        ensures
            final(self).wf(),
            final(self).state == (SessionState {
                environment: Some(environment),
                ..old(self).state
            }),
            final(self).store == old(self).store,
            final(self).listeners@ == old(self).listeners@,
    {
        self.state.set_environment(environment);
        let persisted = match &self.state.environment {
            Some(e) => self.store.set_environment(e),
            None => vstd::pervasive::unreached(),
        };
        if persisted {
            Ok(())
        } else {
            Err(PersistenceError {})
        }
    }

    /// The first step of `load`: what the persistent store already holds.
    /// When the caller does not prefer the cache, nothing is consulted and
    /// both snapshots are fetched remotely.
    pub fn load_begin(&self, prefer_cache: bool) -> (r: LoadPlan)
        ensures
            !prefer_cache ==> r.cached_environment is None && r.cached_client is None,
    {
        if prefer_cache {
            LoadPlan {
                cached_environment: self.store.get_environment(),
                cached_client: self.store.get_client(),
            }
        } else {
            LoadPlan { cached_environment: None, cached_client: None }
        }
    }

    /// The last step of `load`: stores both snapshots, derives the active
    /// entities and marks the coordinator loaded in one critical section,
    /// persists both, and emits one notification round. The returned
    /// record echoes which snapshot came from the cache.
    pub fn load_finish(
        &mut self,
        environment: Environment,
        client: Client,
        environment_from_cache: bool,
        client_from_cache: bool,
    ) -> (r: Result<LoadOutcome, PersistenceError>)
        requires
            old(self).wf(),
        ensures
            final(self).wf(),
            final(self).state.loaded,
            set_client_post(
                (SessionState {
                    environment: Some(environment),
                    loaded: true,
                    ..old(self).state
                }),
                client,
                final(self).state,
            ),
            final(self).store == old(self).store,
            final(self).listeners@ == old(self).listeners@,
            r matches Ok(o) ==> o == (LoadOutcome { environment_from_cache, client_from_cache }),
    {
        self.state.set_loaded(environment, client);
        let env_persisted = match &self.state.environment {
            Some(e) => self.store.set_environment(e),
            None => vstd::pervasive::unreached(),
        };
        let client_persisted = match &self.state.client {
            Some(c) => self.store.set_client(c),
            None => vstd::pervasive::unreached(),
        };
        self.notify_listeners();
        if env_persisted && client_persisted {
            Ok(LoadOutcome { environment_from_cache, client_from_cache })
        } else {
            Err(PersistenceError {})
        }
    }

    /// The decision step of `get_token`: `NotLoaded` before the first
    /// load; a successful `None` when no session or no user is active (a
    /// missing token is not an error); otherwise exactly the remote
    /// token-creation request owed for the caller's arguments.
    pub fn get_token_request(
        &self,
        organization_id: Option<String>,
        template: Option<String>,
    ) -> (r: Result<Option<TokenRequest>, GetTokenError>)
        requires
            self.wf(),
        ensures
            !self.state.loaded ==> r matches Err(GetTokenError::NotLoaded),
            self.state.loaded && self.state.spec_user() is None ==> r matches Ok(None),
            self.state.loaded && self.state.spec_user() is Some ==> (r matches Ok(Some(t))
                && self.state.spec_session() matches Some(s) && t == spec_token_request(
                s,
                organization_id,
                template,
            )),
    {
        if !self.state.loaded {
            return Err(GetTokenError::NotLoaded);
        }
        let session = match self.state.derived_session() {
            Some(s) => s,
            None => {
                return Ok(None);
            },
        };
        if session.user.is_none() {
            return Ok(None);
        }
        match template {
            Some(tpl) => Ok(
                Some(TokenRequest::WithTemplate { session_id: session.id.clone(), template: tpl }),
            ),
            None => Ok(
                Some(TokenRequest::Plain { session_id: session.id.clone(), organization_id }),
            ),
        }
    }

    /// The decision step of `sign_out`: which remote revocation is owed
    /// for the caller's argument. The state is not updated here; the
    /// revocation's response carries an updated client that flows back
    /// through `update_client`.
    pub fn sign_out_request(&self, session_id: Option<String>) -> (r: SignOutRequest)
        ensures
            match session_id {
                Some(sid) => r matches SignOutRequest::RemoveSession { session_id: s } && s == sid,
                None => r matches SignOutRequest::RemoveAllSessions,
            },
    {
        match session_id {
            Some(sid) => SignOutRequest::RemoveSession { session_id: sid },
            None => SignOutRequest::RemoveAllSessions,
        }
    }

    /// The first step of `set_active`: resolves the target session, and
    /// the organization query against the locally cached user (the first
    /// lookup tier). On a local hit — or when no organization was asked
    /// for — the target is staged and the touch request issued; on a
    /// local miss the user re-fetch is requested and nothing changes yet.
    pub fn set_active_begin(
        &mut self,
        session_id: Option<String>,
        organization_id_or_slug: Option<String>,
    ) -> (r: Result<SetActiveAction, SetActiveError>)
        requires
            old(self).wf(),
        ensures
            final(self).wf(),
            final(self).store == old(self).store,
            final(self).listeners@ == old(self).listeners@,
            set_active_begin_post(
                old(self).state,
                session_id,
                organization_id_or_slug,
                final(self).state,
                r,
            ),
    {
        if !self.state.loaded {
            return Err(SetActiveError::NotLoaded);
        }
        let target_session: &Session = match &session_id {
            Some(sid) => {
                let c = match &self.state.client {
                    Some(c) => c,
                    None => vstd::pervasive::unreached(),
                };
                match find_session_index(&c.sessions, sid) {
                    Some(i) => {
                        proof {
                            lemma_session_index_for_is_first_match(c.sessions@, sid@);
                        }
                        &c.sessions[i]
                    },
                    None => {
                        return Err(SetActiveError::SessionNotFound);
                    },
                }
            },
            None => match self.state.derived_session() {
                Some(s) => s,
                None => {
                    return Err(SetActiveError::SessionNotFound);
                },
            },
        };
        let session_id_to_touch = target_session.id.clone();
        match organization_id_or_slug {
            None => {
                self.state.set_target_organization(None);
                Ok(SetActiveAction::Touch { session_id: session_id_to_touch, organization_id: None })
            },
            Some(q) => {
                let resolved: Option<String> = match &target_session.user {
                    Some(u) => match &u.organization_memberships {
                        Some(ms) => match find_membership_index_answering(ms, &q) {
                            Some(j) => {
                                proof {
                                    lemma_membership_index_answering_is_first_match(ms@, q@);
                                }
                                Some(ms[j].organization.id.clone())
                            },
                            None => None,
                        },
                        None => None,
                    },
                    None => None,
                };
                match resolved {
                    Some(oid) => {
                        let staged_value = oid.clone();
                        self.state.set_target_organization(Some(staged_value));
                        Ok(SetActiveAction::Touch {
                            session_id: session_id_to_touch,
                            organization_id: Some(oid),
                        })
                    },
                    None => Ok(
                        SetActiveAction::FetchUser {
                            pending: SetActivePending {
                                session_id: session_id_to_touch,
                                organization_query: q,
                            },
                        },
                    ),
                }
            },
        }
    }

    /// The second step of `set_active`, fed the outcome of the user
    /// re-fetch (the second lookup tier): a hit stages the target and
    /// issues the touch request; a miss requests the full membership list;
    /// a remote failure propagates. Nothing changes except the staged
    /// target on a hit.
    pub fn set_active_user_fetched(
        &mut self,
        pending: SetActivePending,
        fetched: Result<User, RemoteError>,
    ) -> (r: Result<SetActiveAction, SetActiveError>)
        requires
            old(self).wf(),
        ensures
            final(self).wf(),
            final(self).store == old(self).store,
            final(self).listeners@ == old(self).listeners@,
            set_active_user_fetched_post(old(self).state, pending, fetched, final(self).state, r),
    {
        match fetched {
            Err(e) => Err(SetActiveError::ApiError(e)),
            Ok(u) => {
                let resolved: Option<String> = match &u.organization_memberships {
                    Some(ms) => match find_membership_index_answering(
                        ms,
                        &pending.organization_query,
                    ) {
                        Some(j) => {
                            proof {
                                lemma_membership_index_answering_is_first_match(
                                    ms@,
                                    pending.organization_query@,
                                );
                            }
                            Some(ms[j].organization.id.clone())
                        },
                        None => None,
                    },
                    None => None,
                };
                match resolved {
                    Some(oid) => {
                        let staged_value = oid.clone();
                        self.state.set_target_organization(Some(staged_value));
                        Ok(SetActiveAction::Touch {
                            session_id: pending.session_id,
                            organization_id: Some(oid),
                        })
                    },
                    None => Ok(SetActiveAction::FetchMemberships { pending }),
                }
            },
        }
    }

    /// The last step of `set_active`, fed the outcome of the membership
    /// list fetch (the third and last lookup tier): a hit stages the
    /// target and issues the touch request; a miss — the query answered
    /// none of the three tiers — fails with the organization-not-found
    /// error and leaves the state unchanged; a remote failure propagates.
    pub fn set_active_memberships_fetched(
        &mut self,
        pending: SetActivePending,
        fetched: Result<Vec<OrganizationMembership>, RemoteError>,
    ) -> (r: Result<SetActiveAction, SetActiveError>)
        requires
            old(self).wf(),
        ensures
            final(self).wf(),
            final(self).store == old(self).store,
            final(self).listeners@ == old(self).listeners@,
            set_active_memberships_fetched_post(
                old(self).state,
                pending,
                fetched,
                final(self).state,
                r,
            ),
    {
        match fetched {
            Err(e) => Err(SetActiveError::ApiError(e)),
            Ok(ms) => {
                let resolved: Option<String> = match find_membership_index_answering(
                    &ms,
                    &pending.organization_query,
                ) {
                    Some(j) => {
                        proof {
                            lemma_membership_index_answering_is_first_match(
                                ms@,
                                pending.organization_query@,
                            );
                        }
                        Some(ms[j].organization.id.clone())
                    },
                    None => None,
                };
                match resolved {
                    Some(oid) => {
                        let staged_value = oid.clone();
                        self.state.set_target_organization(Some(staged_value));
                        Ok(SetActiveAction::Touch {
                            session_id: pending.session_id,
                            organization_id: Some(oid),
                        })
                    },
                    None => Err(SetActiveError::OrganizationNotFound),
                }
            },
        }
    }
}

/// Maps the outcome of the remote environment fetch into the load's error
/// taxonomy.
pub fn environment_fetch_outcome(fetched: Result<Environment, RemoteError>) -> (r: Result<
    Environment,
    LoadError,
>)
    ensures
        match fetched {
            Ok(e) => r matches Ok(e2) && e2 == e,
            Err(re) => r matches Err(LoadError::FailedToLoadEnv(re2)) && re2 == re,
        },
{
    match fetched {
        Ok(e) => Ok(e),
        Err(re) => Err(LoadError::FailedToLoadEnv(re)),
    }
}

/// Maps the outcome of the remote client fetch into the load's error
/// taxonomy.
pub fn client_fetch_outcome(fetched: Result<Client, RemoteError>) -> (r: Result<Client, LoadError>)
    ensures
        match fetched {
            Ok(c) => r matches Ok(c2) && c2 == c,
            Err(re) => r matches Err(LoadError::FailedToLoadClient(re2)) && re2 == re,
        },
{
    match fetched {
        Ok(c) => Ok(c),
        Err(re) => Err(LoadError::FailedToLoadClient(re)),
    }
}

/// Maps the outcome of the remote token creation into the token error
/// taxonomy; the successful value is the JWT the response carried, if any.
pub fn token_from_response(fetched: Result<Option<String>, RemoteError>) -> (r: Result<
    Option<String>,
    GetTokenError,
>)
    ensures
        match fetched {
            Ok(jwt) => r matches Ok(j2) && j2 == jwt,
            Err(re) => r matches Err(GetTokenError::ApiError(re2)) && re2 == re,
        },
{
    match fetched {
        Ok(jwt) => Ok(jwt),
        Err(re) => Err(GetTokenError::ApiError(re)),
    }
}

/// Maps the outcome of the remote touch-session call into the
/// `set_active` error taxonomy. The touched session's response carries an
/// updated client that flows back through `update_client`, whose
/// derivation consumes the staged organization target.
pub fn set_active_finish(touched: Result<(), RemoteError>) -> (r: Result<(), SetActiveError>)
    ensures
        match touched {
            Ok(u) => r is Ok,
            Err(re) => r matches Err(SetActiveError::ApiError(re2)) && re2 == re,
        },
{
    match touched {
        Ok(u) => Ok(u),
        Err(re) => Err(SetActiveError::ApiError(re)),
    }
}

} // verus!
