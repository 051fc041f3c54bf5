//! The session state store: the single source of truth for the current
//! environment, client, and the session, user and organization derived
//! from the client snapshot.
//!
//! All methods are short critical sections; an embedding program that
//! shares one store across tasks wraps it in a reader/writer lock and
//! keeps network and persistence work outside the lock.

use vstd::prelude::*;

use crate::errors::StateError;
use crate::model::{Client, Environment, Organization, Session, User};
use crate::model::{
    find_membership_index_for_org, find_session_index, lemma_session_index_for_is_first_match,
    membership_index_for_org, session_index_for,
};

verus! {

/// The authoritative snapshot set. The derived active session and user
/// are kept as an index into the current client's session collection;
/// the derived organization is kept as an owned value because the
/// derivation rule can carry it over from an earlier snapshot.
pub struct SessionState {
    pub environment: Option<Environment>,
    pub client: Option<Client>,
    pub active_session: Option<usize>,
    pub organization: Option<Organization>,
    pub loaded: bool,
    pub target_organization_id: Option<Option<String>>,
}

/// The position of the client's active session: the first session whose
/// id equals `last_active_session_id`, if that pointer is set and matches.
pub open spec fn spec_active_index(c: Client) -> Option<int> {
    match c.last_active_session_id {
        Some(id) => session_index_for(c.sessions@, id@),
        None => None,
    }
}

/// The organization target consumed by one derivation pass: the staged
/// one-shot override when present, the session's own last-active
/// organization otherwise.
pub open spec fn spec_org_target(staged: Option<Option<String>>, s: Session) -> Option<String> {
    match staged {
        Some(t) => t,
        None => s.last_active_organization_id,
    }
}

/// The organization derived for a target and user: no target clears the
/// organization; a target found among the user's memberships selects that
/// membership's organization; a target that resolves against nothing
/// leaves the previous organization in place.
pub open spec fn spec_derived_org(
    prev: Option<Organization>,
    target: Option<String>,
    u: User,
) -> Option<Organization> {
    match target {
        None => None,
        Some(tid) => match u.organization_memberships {
            Some(ms) => match membership_index_for_org(ms@, tid@) {
                Some(j) => Some(ms@[j].organization),
                None => prev,
            },
            None => prev,
        },
    }
}

/// Relates the store before and after one accepted client snapshot: the
/// derivation algorithm run as a single critical section.
///
/// The staged target organization is consumed (read and cleared) exactly
/// when the derivation reaches the organization step, that is when the new
/// client has an active session carrying a user; a derivation that stops
/// earlier leaves the stage for the next pass.
pub open spec fn set_client_post(pre: SessionState, c: Client, post: SessionState) -> bool {
    &&& post.environment == pre.environment
    &&& post.loaded == pre.loaded
    &&& post.client == Some(c)
    &&& match spec_active_index(c) {
        Some(i) => {
            &&& post.active_session matches Some(k) && k as int == i
            &&& match c.sessions@[i].user {
                Some(u) => {
                    &&& post.target_organization_id is None
                    &&& post.organization == spec_derived_org(
                        pre.organization,
                        spec_org_target(pre.target_organization_id, c.sessions@[i]),
                        u,
                    )
                },
                None => {
                    &&& post.organization is None
                    &&& post.target_organization_id == pre.target_organization_id
                },
            }
        },
        None => {
            &&& post.active_session is None
            &&& post.organization is None
            &&& post.target_organization_id == pre.target_organization_id
        },
    }
}

impl SessionState {
    /// Well-formedness: the derived session index always agrees with the
    /// current client, and a loaded store holds both snapshots.
    pub open spec fn wf(self) -> bool {
        &&& match self.client {
            Some(c) => match spec_active_index(c) {
                Some(i) => self.active_session matches Some(k) && k as int == i,
                None => self.active_session is None,
            },
            None => {
                &&& self.active_session is None
                &&& self.organization is None
            },
        }
        &&& self.loaded ==> self.client is Some && self.environment is Some
    }

    /// The derived active session: the entry of the current client's
    /// session collection that the active index selects.
    pub open spec fn spec_session(self) -> Option<Session> {
        match self.client {
            Some(c) => match self.active_session {
                Some(i) => if i < c.sessions@.len() {
                    Some(c.sessions@[i as int])
                } else {
                    None
                },
                None => None,
            },
            None => None,
        }
    }

    /// The derived active user: the user embedded in the derived session.
    pub open spec fn spec_user(self) -> Option<User> {
        match self.spec_session() {
            Some(s) => s.user,
            None => None,
        }
    }

    /// The empty store: nothing cached, nothing derived, not loaded.
    pub open spec fn spec_init() -> SessionState {
        SessionState {
            environment: None,
            client: None,
            active_session: None,
            organization: None,
            loaded: false,
            target_organization_id: None,
        }
    }

    pub fn new() -> (r: SessionState)
        ensures
            r == SessionState::spec_init(),
            r.wf(),
    {
        SessionState {
            environment: None,
            client: None,
            active_session: None,
            organization: None,
            loaded: false,
            target_organization_id: None,
        }
    }

    /// Replaces the cached environment. Persistence is the caller's step,
    /// taken outside the critical section.
    pub fn set_environment(&mut self, environment: Environment)
        requires
            old(self).wf(),
        ensures
            final(self).wf(),
            *final(self) == (SessionState { environment: Some(environment), ..*old(self) }),
    {
        self.environment = Some(environment);
    }

    /// Stages a one-shot organization override, a single-slot mailbox
    /// consumed by the next derivation pass that reaches the organization
    /// step.
    pub fn set_target_organization(&mut self, target: Option<String>)
        requires
            old(self).wf(),
        ensures
            final(self).wf(),
            *final(self) == (SessionState {
                target_organization_id: Some(target),
                ..*old(self)
            }),
    {
        self.target_organization_id = Some(target);
    }

    /// Replaces the cached client and rederives the active session, user
    /// and organization, all in one critical section, so a reader never
    /// observes a client with stale derived entities.
    pub fn set_client(&mut self, client: Client)
        requires
            old(self).wf(),
        ensures
            final(self).wf(),
            set_client_post(*old(self), client, *final(self)),
    {
        let idx: Option<usize> = match &client.last_active_session_id {
            Some(id) => find_session_index(&client.sessions, id),
            None => None,
        };
        match idx {
            None => {
                self.active_session = None;
                self.organization = None;
            },
            Some(i) => {
                proof {
                    lemma_session_index_for_is_first_match(
                        client.sessions@,
                        client.last_active_session_id->0@,
                    );
                }
                self.active_session = Some(i);
                match &client.sessions[i].user {
                    None => {
                        self.organization = None;
                    },
                    Some(u) => {
                        let staged = self.target_organization_id.take();
                        let target: Option<&String> = match &staged {
                            Some(t) => t.as_ref(),
                            None => client.sessions[i].last_active_organization_id.as_ref(),
                        };
                        match target {
                            None => {
                                self.organization = None;
                            },
                            Some(tid) => match &u.organization_memberships {
                                Some(ms) => match find_membership_index_for_org(ms, tid) {
                                    Some(j) => {
                                        proof {
                                            crate::model::lemma_membership_index_for_org_is_first_match(
                                                ms@,
                                                tid@,
                                            );
                                        }
                                        self.organization = Some(ms[j].organization.duplicate());
                                    },
                                    None => {},
                                },
                                None => {},
                            },
                        }
                    },
                }
            },
        }
        self.client = Some(client);
    }

    /// Combined bootstrap: stores environment and client, derives the
    /// active entities, and marks the store loaded, all in one critical
    /// section. Once set, the loaded flag never reverts.
    pub fn set_loaded(&mut self, environment: Environment, client: Client)
        requires
            old(self).wf(),
        ensures
            final(self).wf(),
            final(self).loaded,
            set_client_post(
                (SessionState { environment: Some(environment), loaded: true, ..*old(self) }),
                client,
                *final(self),
            ),
    {
        self.environment = Some(environment);
        self.set_client(client);
        self.loaded = true;
    }

    /// The derived active session, if any, independent of the loaded flag.
    pub fn derived_session(&self) -> (r: Option<&Session>)
        requires
            self.wf(),
        ensures
            match r {
                Some(s) => self.spec_session() == Some(*s),
                None => self.spec_session() is None,
            },
    {
        match &self.client {
            Some(c) => match self.active_session {
                Some(i) => {
                    proof {
                        lemma_session_index_for_is_first_match(
                            c.sessions@,
                            c.last_active_session_id->0@,
                        );
                    }
                    Some(&c.sessions[i])
                },
                None => None,
            },
            None => None,
        }
    }

    /// The derived active user, if any, independent of the loaded flag.
    pub fn derived_user(&self) -> (r: Option<&User>)
        requires
            self.wf(),
        ensures
            match r {
                Some(u) => self.spec_user() == Some(*u),
                None => self.spec_user() is None,
            },
    {
        match self.derived_session() {
            Some(s) => s.user.as_ref(),
            None => None,
        }
    }

    /// The cached environment; `NotLoaded` before the first successful
    /// load.
    pub fn get_environment(&self) -> (r: Result<&Environment, StateError>)
        requires
            self.wf(),
        ensures
            !self.loaded ==> r matches Err(StateError::NotLoaded),
            self.loaded ==> (r matches Ok(e) && self.environment == Some(*e)),
    {
        if !self.loaded {
            return Err(StateError::NotLoaded);
        }
        match &self.environment {
            Some(e) => Ok(e),
            None => vstd::pervasive::unreached(),
        }
    }

    /// The current client snapshot; `NotLoaded` before the first
    /// successful load.
    pub fn get_client(&self) -> (r: Result<Option<&Client>, StateError>)
        requires
            self.wf(),
        ensures
            !self.loaded ==> r matches Err(StateError::NotLoaded),
            self.loaded ==> (r matches Ok(Some(c)) && self.client == Some(*c)),
    {
        if !self.loaded {
            return Err(StateError::NotLoaded);
        }
        match &self.client {
            Some(c) => Ok(Some(c)),
            None => vstd::pervasive::unreached(),
        }
    }

    /// The derived active session; `None` when loaded but no session is
    /// active, `NotLoaded` before the first successful load.
    pub fn get_session(&self) -> (r: Result<Option<&Session>, StateError>)
        requires
            self.wf(),
        ensures
            !self.loaded ==> r matches Err(StateError::NotLoaded),
            self.loaded ==> (r matches Ok(s) && match s {
                Some(sr) => self.spec_session() == Some(*sr),
                None => self.spec_session() is None,
            }),
    {
        if !self.loaded {
            return Err(StateError::NotLoaded);
        }
        Ok(self.derived_session())
    }

    /// The derived active user; `None` when loaded but no user is
    /// embedded, `NotLoaded` before the first successful load.
    pub fn get_user(&self) -> (r: Result<Option<&User>, StateError>)
        requires
            self.wf(),
        ensures
            !self.loaded ==> r matches Err(StateError::NotLoaded),
            self.loaded ==> (r matches Ok(u) && match u {
                Some(ur) => self.spec_user() == Some(*ur),
                None => self.spec_user() is None,
            }),
    {
        if !self.loaded {
            return Err(StateError::NotLoaded);
        }
        Ok(self.derived_user())
    }

    /// The derived active organization; `None` when loaded but none is
    /// active, `NotLoaded` before the first successful load.
    pub fn get_organization(&self) -> (r: Result<Option<&Organization>, StateError>)
        requires
            self.wf(),
        ensures
            !self.loaded ==> r matches Err(StateError::NotLoaded),
            self.loaded ==> (r matches Ok(o) && match o {
                Some(or) => self.organization == Some(*or),
                None => self.organization is None,
            }),
    {
        if !self.loaded {
            return Err(StateError::NotLoaded);
        }
        Ok(self.organization.as_ref())
    }
}

} // verus!
