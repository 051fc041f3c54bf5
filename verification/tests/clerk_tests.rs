//! Behavior tests for the session state synchronizer, driven the way an
//! embedding program drives it: an in-memory store, recording listeners,
//! and a fake remote that counts what was fetched.

use std::cell::RefCell;
use std::rc::Rc;

use clerk_fapi_rs::coordinator::{
    client_fetch_outcome, environment_fetch_outcome, set_active_finish, token_from_response,
    Clerk, Listener, LoadOutcome, SetActiveAction, SignOutRequest, TokenRequest,
};
use clerk_fapi_rs::errors::{
    GetTokenError, LoadError, RemoteError, SetActiveError, StateError,
};
use clerk_fapi_rs::model::{
    find_organization_id_from_memberships, Client, Environment, Organization,
    OrganizationMembership, Session, User,
};
use clerk_fapi_rs::store::{AuthorizationMiddleware, Store};

#[derive(Clone, Default)]
struct MemStore {
    environment: Rc<RefCell<Option<Environment>>>,
    client: Rc<RefCell<Option<Client>>>,
    authorization: Rc<RefCell<Option<String>>>,
    fail_writes: Rc<RefCell<bool>>,
}

impl Store for MemStore {
    fn get_environment(&self) -> Option<Environment> {
        self.environment.borrow().clone()
    }
    fn set_environment(&self, environment: &Environment) -> bool {
        if *self.fail_writes.borrow() {
            return false;
        }
        *self.environment.borrow_mut() = Some(environment.clone());
        true
    }
    fn get_client(&self) -> Option<Client> {
        self.client.borrow().clone()
    }
    fn set_client(&self, client: &Client) -> bool {
        if *self.fail_writes.borrow() {
            return false;
        }
        *self.client.borrow_mut() = Some(client.clone());
        true
    }
    fn get_authorization(&self) -> Option<String> {
        self.authorization.borrow().clone()
    }
    fn set_authorization(&self, value: Option<String>) {
        *self.authorization.borrow_mut() = value;
    }
}

type Snapshot = (String, Option<String>, Option<String>, Option<String>);

#[derive(Clone, Default)]
struct RecordingListener {
    calls: Rc<RefCell<Vec<Snapshot>>>,
}

impl Listener for RecordingListener {
    fn on_update(
        &self,
        client: &Client,
        session: Option<&Session>,
        user: Option<&User>,
        organization: Option<&Organization>,
    ) {
        self.calls.borrow_mut().push((
            client.id.clone(),
            session.map(|s| s.id.clone()),
            user.map(|u| u.id.clone()),
            organization.map(|o| o.id.clone()),
        ));
    }
}

type TestClerk = Clerk<MemStore, RecordingListener>;

fn org(id: &str, slug: &str) -> Organization {
    Organization {
        id: id.to_string(),
        slug: slug.to_string(),
        name: slug.to_string(),
        members_count: 1,
    }
}

fn membership(o: Organization) -> OrganizationMembership {
    OrganizationMembership { organization: o, role: "basic_member".to_string() }
}

fn user(id: &str, memberships: Option<Vec<OrganizationMembership>>) -> User {
    User { id: id.to_string(), username: None, organization_memberships: memberships }
}

fn session(id: &str, u: Option<User>, last_org: Option<&str>) -> Session {
    Session {
        id: id.to_string(),
        status: "active".to_string(),
        user: u,
        last_active_organization_id: last_org.map(|s| s.to_string()),
    }
}

fn client(sessions: Vec<Session>, last_active: Option<&str>) -> Client {
    Client {
        id: "client_1".to_string(),
        sessions,
        last_active_session_id: last_active.map(|s| s.to_string()),
    }
}

fn environment() -> Environment {
    Environment { auth_config_id: "aac_1".to_string(), organizations_enabled: true }
}

fn remote_error(m: &str) -> RemoteError {
    RemoteError { message: m.to_string() }
}

/// A fake remote that counts fetches, standing in for the network side of
/// the load driver an embedding program writes.
#[derive(Default)]
struct FakeRemote {
    environment_calls: RefCell<u32>,
    client_calls: RefCell<u32>,
    environment_fails: bool,
    client_fails: bool,
}

impl FakeRemote {
    fn fetch_environment(&self) -> Result<Environment, RemoteError> {
        *self.environment_calls.borrow_mut() += 1;
        if self.environment_fails {
            Err(remote_error("environment fetch failed"))
        } else {
            Ok(environment())
        }
    }
    fn fetch_client(&self, c: &Client) -> Result<Client, RemoteError> {
        *self.client_calls.borrow_mut() += 1;
        if self.client_fails {
            Err(remote_error("client fetch failed"))
        } else {
            Ok(c.clone())
        }
    }
}

/// The load loop as the embedding program runs it: consult the cache,
/// fetch what is missing, finish in one step.
fn drive_load(
    clerk: &mut TestClerk,
    prefer_cache: bool,
    remote: &FakeRemote,
    remote_client: &Client,
) -> Result<LoadOutcome, LoadError> {
    let plan = clerk.load_begin(prefer_cache);
    let (env, env_cached) = match plan.cached_environment {
        Some(e) => (e, true),
        None => (environment_fetch_outcome(remote.fetch_environment())?, false),
    };
    let (cl, cl_cached) = match plan.cached_client {
        Some(c) => (c, true),
        None => (client_fetch_outcome(remote.fetch_client(remote_client))?, false),
    };
    Ok(clerk
        .load_finish(env, cl, env_cached, cl_cached)
        .expect("test store does not fail writes"))
}

fn loaded_clerk(c: Client) -> TestClerk {
    let mut clerk = TestClerk::new(MemStore::default());
    clerk.load_finish(environment(), c, false, false).unwrap();
    clerk
}

#[test]
fn test_derivation_selects_matching_session() {
    let c = client(
        vec![
            session("sess_1", None, None),
            session("sess_2", None, None),
            session("sess_3", None, None),
        ],
        Some("sess_2"),
    );
    let clerk = loaded_clerk(c);
    let s = clerk.session().unwrap().expect("an active session is derived");
    assert_eq!(s.id, "sess_2");
}

#[test]
fn test_derivation_unknown_session_id_yields_none() {
    let c = client(
        vec![session("sess_1", None, None), session("sess_2", None, None)],
        Some("sess_9"),
    );
    let clerk = loaded_clerk(c);
    assert_eq!(clerk.session().unwrap(), None);
    assert_eq!(clerk.user().unwrap(), None);
    assert_eq!(clerk.organization().unwrap(), None);
}

#[test]
fn test_missing_user_cascades_to_user_and_organization() {
    let mut clerk = loaded_clerk(client(vec![session("sess_1", None, None)], Some("sess_1")));
    // Stage a target; a derivation that finds no embedded user must still
    // leave user and organization absent.
    clerk.state.set_target_organization(Some("org_A".to_string()));
    clerk
        .update_client(client(vec![session("sess_1", None, Some("org_B"))], Some("sess_1")))
        .unwrap();
    assert!(clerk.session().unwrap().is_some());
    assert_eq!(clerk.user().unwrap(), None);
    assert_eq!(clerk.organization().unwrap(), None);
}

#[test]
fn test_target_override_precedence_and_one_shot_consumption() {
    let memberships = vec![
        membership(org("org_A", "team-a")),
        membership(org("org_B", "team-b")),
    ];
    let c = client(
        vec![session(
            "sess_1",
            Some(user("user_1", Some(memberships))),
            Some("org_B"),
        )],
        Some("sess_1"),
    );
    let mut clerk = loaded_clerk(client(vec![], None));
    clerk.state.set_target_organization(Some("org_A".to_string()));
    clerk.update_client(c.clone()).unwrap();
    assert_eq!(clerk.organization().unwrap().unwrap().id, "org_A");
    // The staged target was consumed: the same snapshot now resolves to
    // the session's own last-active organization.
    clerk.update_client(c).unwrap();
    assert_eq!(clerk.organization().unwrap().unwrap().id, "org_B");
}

#[test]
fn test_unresolved_target_keeps_previous_organization() {
    let memberships = vec![membership(org("org_A", "team-a"))];
    let c1 = client(
        vec![session(
            "sess_1",
            Some(user("user_1", Some(memberships.clone()))),
            Some("org_A"),
        )],
        Some("sess_1"),
    );
    let mut clerk = loaded_clerk(c1);
    assert_eq!(clerk.organization().unwrap().unwrap().id, "org_A");
    // A target that resolves against no membership is a no-op on the
    // derived organization.
    let c2 = client(
        vec![session(
            "sess_1",
            Some(user("user_1", Some(memberships))),
            Some("org_unknown"),
        )],
        Some("sess_1"),
    );
    clerk.update_client(c2).unwrap();
    assert_eq!(clerk.organization().unwrap().unwrap().id, "org_A");
}

#[test]
fn test_load_prefers_cache_and_counts_remote_fetches() {
    let cached_client = client(vec![session("sess_1", None, None)], Some("sess_1"));
    let store = MemStore::default();
    *store.environment.borrow_mut() = Some(environment());
    *store.client.borrow_mut() = Some(cached_client.clone());

    let mut clerk = TestClerk::new(store);
    let remote = FakeRemote::default();
    let outcome = drive_load(&mut clerk, true, &remote, &cached_client).unwrap();
    assert_eq!(*remote.environment_calls.borrow(), 0);
    assert_eq!(*remote.client_calls.borrow(), 0);
    assert!(outcome.environment_from_cache);
    assert!(outcome.client_from_cache);
    assert!(clerk.loaded());
    assert_eq!(*clerk.environment().unwrap(), environment());
    assert_eq!(*clerk.client().unwrap().unwrap(), cached_client);

    // A fresh coordinator without cache preference fetches each snapshot
    // exactly once.
    let mut fresh = TestClerk::new(MemStore::default());
    let remote2 = FakeRemote::default();
    let outcome2 = drive_load(&mut fresh, false, &remote2, &cached_client).unwrap();
    assert_eq!(*remote2.environment_calls.borrow(), 1);
    assert_eq!(*remote2.client_calls.borrow(), 1);
    assert!(!outcome2.environment_from_cache);
    assert!(!outcome2.client_from_cache);
}

#[test]
fn test_load_failure_mapping() {
    let c = client(vec![], None);
    let mut clerk = TestClerk::new(MemStore::default());
    let remote = FakeRemote { environment_fails: true, ..FakeRemote::default() };
    match drive_load(&mut clerk, false, &remote, &c) {
        Err(LoadError::FailedToLoadEnv(e)) => assert_eq!(e.message, "environment fetch failed"),
        other => panic!("expected FailedToLoadEnv, got {:?}", other),
    }
    assert!(!clerk.loaded());

    let remote2 = FakeRemote { client_fails: true, ..FakeRemote::default() };
    match drive_load(&mut clerk, false, &remote2, &c) {
        Err(LoadError::FailedToLoadClient(e)) => assert_eq!(e.message, "client fetch failed"),
        other => panic!("expected FailedToLoadClient, got {:?}", other),
    }
    assert!(!clerk.loaded());
}

#[test]
fn test_listener_fanout_and_late_subscription() {
    let c = client(vec![session("sess_1", None, None)], Some("sess_1"));
    let mut clerk = TestClerk::new(MemStore::default());
    let first = RecordingListener::default();
    let second = RecordingListener::default();
    clerk.add_listener(first.clone());
    clerk.add_listener(second.clone());
    // No client yet: registration does not invoke anything.
    assert!(first.calls.borrow().is_empty());
    assert!(second.calls.borrow().is_empty());

    let remote = FakeRemote::default();
    drive_load(&mut clerk, false, &remote, &c).unwrap();
    assert_eq!(first.calls.borrow().len(), 1);
    assert_eq!(second.calls.borrow().len(), 1);
    assert_eq!(first.calls.borrow()[0], second.calls.borrow()[0]);
    assert_eq!(first.calls.borrow()[0].0, "client_1");
    assert_eq!(first.calls.borrow()[0].1, Some("sess_1".to_string()));

    // A late subscriber is invoked immediately, once, with the current
    // snapshot.
    let third = RecordingListener::default();
    clerk.add_listener(third.clone());
    assert_eq!(third.calls.borrow().len(), 1);
    assert_eq!(third.calls.borrow()[0], first.calls.borrow()[0]);
    assert_eq!(first.calls.borrow().len(), 1);
}

#[test]
fn test_update_client_notifies_and_persists() {
    let store = MemStore::default();
    let mut clerk = TestClerk::new(store.clone());
    let listener = RecordingListener::default();
    clerk.add_listener(listener.clone());
    let c = client(vec![session("sess_1", None, None)], Some("sess_1"));
    clerk.update_client(c.clone()).unwrap();
    assert_eq!(listener.calls.borrow().len(), 1);
    assert_eq!(store.client.borrow().as_ref(), Some(&c));
}

#[test]
fn test_persistence_failure_keeps_memory_state() {
    let store = MemStore::default();
    *store.fail_writes.borrow_mut() = true;
    let mut clerk = TestClerk::new(store.clone());
    let listener = RecordingListener::default();
    clerk.add_listener(listener.clone());
    let c = client(vec![session("sess_1", None, None)], Some("sess_1"));
    assert!(clerk.update_client(c).is_err());
    // The in-memory update and the notification still happened.
    assert_eq!(listener.calls.borrow().len(), 1);
    assert_eq!(
        clerk.state.client.as_ref().map(|cl| cl.id.clone()),
        Some("client_1".to_string())
    );
    assert!(store.client.borrow().is_none());
}

#[test]
fn test_get_token_before_load_is_not_loaded() {
    let clerk = TestClerk::new(MemStore::default());
    assert_eq!(clerk.get_token_request(None, None), Err(GetTokenError::NotLoaded));
}

#[test]
fn test_get_token_without_session_or_user_is_none() {
    let clerk = loaded_clerk(client(vec![], None));
    assert_eq!(clerk.get_token_request(None, None), Ok(None));

    let without_user = loaded_clerk(client(vec![session("sess_1", None, None)], Some("sess_1")));
    assert_eq!(without_user.get_token_request(None, None), Ok(None));
}

#[test]
fn test_get_token_request_shapes() {
    let clerk = loaded_clerk(client(
        vec![session("sess_1", Some(user("user_1", None)), None)],
        Some("sess_1"),
    ));
    assert_eq!(
        clerk.get_token_request(Some("org_A".to_string()), None),
        Ok(Some(TokenRequest::Plain {
            session_id: "sess_1".to_string(),
            organization_id: Some("org_A".to_string()),
        }))
    );
    // A template-qualified request does not carry the organization scope.
    assert_eq!(
        clerk.get_token_request(Some("org_A".to_string()), Some("mobile".to_string())),
        Ok(Some(TokenRequest::WithTemplate {
            session_id: "sess_1".to_string(),
            template: "mobile".to_string(),
        }))
    );
}

#[test]
fn test_token_from_response_mapping() {
    assert_eq!(
        token_from_response(Ok(Some("jwt".to_string()))),
        Ok(Some("jwt".to_string()))
    );
    assert_eq!(token_from_response(Ok(None)), Ok(None));
    assert_eq!(
        token_from_response(Err(remote_error("boom"))),
        Err(GetTokenError::ApiError(remote_error("boom")))
    );
}

#[test]
fn test_sign_out_request_mapping() {
    let clerk = TestClerk::new(MemStore::default());
    assert_eq!(
        clerk.sign_out_request(Some("sess_1".to_string())),
        SignOutRequest::RemoveSession { session_id: "sess_1".to_string() }
    );
    assert_eq!(clerk.sign_out_request(None), SignOutRequest::RemoveAllSessions);
}

#[test]
fn test_set_active_guards() {
    let mut unloaded = TestClerk::new(MemStore::default());
    assert_eq!(
        unloaded.set_active_begin(None, None),
        Err(SetActiveError::NotLoaded)
    );

    let mut no_session = loaded_clerk(client(vec![], None));
    assert_eq!(
        no_session.set_active_begin(None, None),
        Err(SetActiveError::SessionNotFound)
    );
    assert_eq!(
        no_session.set_active_begin(Some("sess_9".to_string()), None),
        Err(SetActiveError::SessionNotFound)
    );
}

#[test]
fn test_set_active_without_organization_stages_empty_target() {
    let mut clerk = loaded_clerk(client(
        vec![session(
            "sess_1",
            Some(user("user_1", Some(vec![membership(org("org_B", "team-b"))]))),
            Some("org_B"),
        )],
        Some("sess_1"),
    ));
    assert_eq!(clerk.organization().unwrap().unwrap().id, "org_B");
    let action = clerk.set_active_begin(None, None).unwrap();
    assert_eq!(
        action,
        SetActiveAction::Touch { session_id: "sess_1".to_string(), organization_id: None }
    );
    assert_eq!(clerk.state.target_organization_id, Some(None));
    // The touch response carries the client back; the staged empty target
    // overrides the session's own last-active organization for one pass.
    let c = client(
        vec![session(
            "sess_1",
            Some(user("user_1", Some(vec![membership(org("org_B", "team-b"))]))),
            Some("org_B"),
        )],
        Some("sess_1"),
    );
    clerk.update_client(c).unwrap();
    assert_eq!(clerk.organization().unwrap(), None);
}

#[test]
fn test_set_active_local_hit_by_slug() {
    let mut clerk = loaded_clerk(client(
        vec![session(
            "sess_1",
            Some(user("user_1", Some(vec![membership(org("org_A", "team-a"))]))),
            None,
        )],
        Some("sess_1"),
    ));
    let action = clerk.set_active_begin(None, Some("team-a".to_string())).unwrap();
    assert_eq!(
        action,
        SetActiveAction::Touch {
            session_id: "sess_1".to_string(),
            organization_id: Some("org_A".to_string()),
        }
    );
    assert_eq!(clerk.state.target_organization_id, Some(Some("org_A".to_string())));
}

#[test]
fn test_set_active_staged_target_consumed_by_next_snapshot() {
    let memberships = vec![
        membership(org("org_A", "team-a")),
        membership(org("org_B", "team-b")),
    ];
    let c = client(
        vec![session(
            "sess_1",
            Some(user("user_1", Some(memberships))),
            Some("org_B"),
        )],
        Some("sess_1"),
    );
    let mut clerk = loaded_clerk(c.clone());
    assert_eq!(clerk.organization().unwrap().unwrap().id, "org_B");

    // Switch to A by slug: the local tier hits, the target is staged, and
    // the touch response (carrying the same client) consumes it.
    let action = clerk.set_active_begin(None, Some("team-a".to_string())).unwrap();
    assert_eq!(
        action,
        SetActiveAction::Touch {
            session_id: "sess_1".to_string(),
            organization_id: Some("org_A".to_string()),
        }
    );
    clerk.update_client(c).unwrap();
    assert_eq!(clerk.organization().unwrap().unwrap().id, "org_A");
    assert_eq!(clerk.state.target_organization_id, None);
}

#[test]
fn test_set_active_explicit_session_id() {
    let mut clerk = loaded_clerk(client(
        vec![session("sess_1", None, None), session("sess_2", None, None)],
        Some("sess_1"),
    ));
    let action = clerk.set_active_begin(Some("sess_2".to_string()), None).unwrap();
    assert_eq!(
        action,
        SetActiveAction::Touch { session_id: "sess_2".to_string(), organization_id: None }
    );
}

#[test]
fn test_set_active_resolution_tiers_in_order() {
    // The queried slug is only present in the remote membership list: the
    // local tier misses, the user re-fetch misses, the list fetch hits.
    let mut clerk = loaded_clerk(client(
        vec![session(
            "sess_1",
            Some(user("user_1", Some(vec![membership(org("org_A", "team-a"))]))),
            None,
        )],
        Some("sess_1"),
    ));

    let pending = match clerk.set_active_begin(None, Some("team-c".to_string())).unwrap() {
        SetActiveAction::FetchUser { pending } => pending,
        other => panic!("expected FetchUser, got {:?}", other),
    };
    assert_eq!(pending.session_id, "sess_1");
    assert_eq!(pending.organization_query, "team-c");
    assert_eq!(clerk.state.target_organization_id, None);

    let refetched = user("user_1", Some(vec![membership(org("org_A", "team-a"))]));
    let pending = match clerk.set_active_user_fetched(pending, Ok(refetched)).unwrap() {
        SetActiveAction::FetchMemberships { pending } => pending,
        other => panic!("expected FetchMemberships, got {:?}", other),
    };
    assert_eq!(clerk.state.target_organization_id, None);

    let all = vec![
        membership(org("org_A", "team-a")),
        membership(org("org_C", "team-c")),
    ];
    let action = clerk.set_active_memberships_fetched(pending, Ok(all)).unwrap();
    assert_eq!(
        action,
        SetActiveAction::Touch {
            session_id: "sess_1".to_string(),
            organization_id: Some("org_C".to_string()),
        }
    );
    assert_eq!(clerk.state.target_organization_id, Some(Some("org_C".to_string())));
}

#[test]
fn test_set_active_absent_everywhere_is_organization_not_found() {
    let mut clerk = loaded_clerk(client(
        vec![session(
            "sess_1",
            Some(user("user_1", Some(vec![membership(org("org_A", "team-a"))]))),
            Some("org_A"),
        )],
        Some("sess_1"),
    ));
    let organization_before = clerk.organization().unwrap().cloned();

    let pending = match clerk.set_active_begin(None, Some("team-z".to_string())).unwrap() {
        SetActiveAction::FetchUser { pending } => pending,
        other => panic!("expected FetchUser, got {:?}", other),
    };
    let refetched = user("user_1", Some(vec![membership(org("org_A", "team-a"))]));
    let pending = match clerk.set_active_user_fetched(pending, Ok(refetched)).unwrap() {
        SetActiveAction::FetchMemberships { pending } => pending,
        other => panic!("expected FetchMemberships, got {:?}", other),
    };
    let all = vec![membership(org("org_A", "team-a"))];
    assert_eq!(
        clerk.set_active_memberships_fetched(pending, Ok(all)),
        Err(SetActiveError::OrganizationNotFound)
    );
    // All three tiers missed: no state change.
    assert_eq!(clerk.state.target_organization_id, None);
    assert_eq!(clerk.organization().unwrap().cloned(), organization_before);
}

#[test]
fn test_set_active_remote_failures_propagate() {
    let mut clerk = loaded_clerk(client(vec![], None));
    let pending = clerk_fapi_rs::coordinator::SetActivePending {
        session_id: "sess_1".to_string(),
        organization_query: "team-a".to_string(),
    };
    assert_eq!(
        clerk.set_active_user_fetched(pending.clone(), Err(remote_error("down"))),
        Err(SetActiveError::ApiError(remote_error("down")))
    );
    assert_eq!(
        clerk.set_active_memberships_fetched(pending, Err(remote_error("down"))),
        Err(SetActiveError::ApiError(remote_error("down")))
    );
    assert_eq!(
        set_active_finish(Err(remote_error("down"))),
        Err(SetActiveError::ApiError(remote_error("down")))
    );
    assert_eq!(set_active_finish(Ok(())), Ok(()));
}

#[test]
fn test_find_organization_id_from_memberships_by_id_and_slug() {
    let memberships = vec![
        membership(org("org_A", "team-a")),
        membership(org("org_B", "team-b")),
    ];
    let by_id =
        find_organization_id_from_memberships(memberships.clone(), "org_B".to_string()).unwrap();
    assert_eq!(by_id.organization.id, "org_B");
    let by_slug =
        find_organization_id_from_memberships(memberships.clone(), "team-a".to_string()).unwrap();
    assert_eq!(by_slug.organization.id, "org_A");
    assert_eq!(
        find_organization_id_from_memberships(memberships.clone(), "team-z".to_string()),
        None
    );
    // A query with the org_ prefix is matched against ids only, never
    // against a slug that happens to carry the prefix.
    let tricky = vec![membership(org("org_123", "org_team"))];
    assert_eq!(
        find_organization_id_from_memberships(tricky.clone(), "org_team".to_string()),
        None
    );
    let found = find_organization_id_from_memberships(tricky, "org_123".to_string()).unwrap();
    assert_eq!(found.organization.slug, "org_team");
}

#[test]
fn test_not_loaded_guards_on_accessors() {
    let clerk = TestClerk::new(MemStore::default());
    assert_eq!(clerk.environment(), Err(StateError::NotLoaded));
    assert_eq!(clerk.client(), Err(StateError::NotLoaded));
    assert_eq!(clerk.session(), Err(StateError::NotLoaded));
    assert_eq!(clerk.user(), Err(StateError::NotLoaded));
    assert_eq!(clerk.organization(), Err(StateError::NotLoaded));
    assert_eq!(clerk.authorization_header(), Err(StateError::NotLoaded));
    assert!(!clerk.loaded());
}

#[test]
fn test_authorization_header_passthrough() {
    let store = MemStore::default();
    let mut clerk = TestClerk::new(store.clone());
    clerk.set_authorization_header(Some("Bearer abc".to_string()));
    assert_eq!(*store.authorization.borrow(), Some("Bearer abc".to_string()));
    clerk.load_finish(environment(), client(vec![], None), false, false).unwrap();
    assert_eq!(clerk.authorization_header(), Ok(Some("Bearer abc".to_string())));
    clerk.set_authorization_header(None);
    assert_eq!(clerk.authorization_header(), Ok(None));
}

#[test]
fn test_authorization_middleware_key_and_roundtrip() {
    let store = MemStore::default();
    let middleware = AuthorizationMiddleware::new(store.clone(), "test_".to_string());
    assert_eq!(middleware.get_auth_key(), "test_authorization");
    assert_eq!(middleware.request_authorization(), None);
    middleware.record_authorization("Bearer xyz".to_string());
    assert_eq!(middleware.request_authorization(), Some("Bearer xyz".to_string()));
    assert_eq!(*store.authorization.borrow(), Some("Bearer xyz".to_string()));
}

#[test]
fn test_update_environment_persists() {
    let store = MemStore::default();
    let mut clerk = TestClerk::new(store.clone());
    clerk.update_environment(environment()).unwrap();
    assert_eq!(*store.environment.borrow(), Some(environment()));

    *store.fail_writes.borrow_mut() = true;
    assert!(clerk.update_environment(environment()).is_err());
}
