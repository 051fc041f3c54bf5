//! Laws of the derivation algorithm, stated once over the transition
//! relation so every caller of `set_client`, `set_loaded`, `update_client`
//! or `load_finish` inherits them.

use vstd::prelude::*;

use crate::model::{Client, OrganizationMembership, User};
use crate::model::{
    lemma_membership_index_for_org_is_first_match, lemma_session_index_for_is_first_match,
    membership_index_for_org,
};
use crate::state::{SessionState, set_client_post, spec_active_index, spec_derived_org};

verus! {

/// Law: derivation selects exactly the active session. After an accepted
/// client snapshot, the derived session is the first entry of the client's
/// session collection whose id equals `last_active_session_id`; when that
/// pointer is unset or matches nothing, the derived session is absent.
pub proof fn lemma_derivation_selects_active_session(
    pre: SessionState,
    c: Client,
    post: SessionState,
)
    requires
        set_client_post(pre, c, post),
    ensures
        post.spec_session() == (match spec_active_index(c) {
            Some(i) => Some(c.sessions@[i]),
            None => None,
        }),
        post.spec_session() matches Some(s) ==> (c.last_active_session_id matches Some(id)
            && s.id@ == id@),
        c.last_active_session_id is None ==> post.spec_session() is None,
{
    match c.last_active_session_id {
        Some(id) => lemma_session_index_for_is_first_match(c.sessions@, id@),
        None => {},
    }
}

/// Law: a missing user cascades. When the derived session carries no
/// embedded user — in particular when there is no derived session at all —
/// the derived user and the derived organization are both absent,
/// regardless of any staged target organization.
pub proof fn lemma_missing_user_cascades(pre: SessionState, c: Client, post: SessionState)
    requires
        set_client_post(pre, c, post),
        post.spec_session() matches Some(s) ==> s.user is None,
    ensures
        post.spec_user() is None,
        post.organization is None,
{
    match c.last_active_session_id {
        Some(id) => lemma_session_index_for_is_first_match(c.sessions@, id@),
        None => {},
    }
}

/// Law: the staged target organization takes precedence over the
/// session's own last-active organization, and is consumed by exactly one
/// derivation pass. With the target `a` staged, a derivation over a client
/// whose active session carries a user that is a member of `a` resolves
/// the organization to `a` and clears the stage; a second derivation over
/// the same client falls back to the session's own last-active
/// organization.
pub proof fn lemma_target_override_one_shot(
    pre: SessionState,
    c: Client,
    mid: SessionState,
    post: SessionState,
    a: String,
    i: int,
    u: User,
    ms: Vec<OrganizationMembership>,
    ja: int,
)
    requires
        set_client_post(pre, c, mid),
        set_client_post(mid, c, post),
        pre.target_organization_id == Some(Some(a)),
        spec_active_index(c) == Some(i),
        c.sessions@[i].user == Some(u),
        u.organization_memberships == Some(ms),
        membership_index_for_org(ms@, a@) == Some(ja),
    ensures
        mid.organization == Some(ms@[ja].organization),
        mid.target_organization_id is None,
        post.organization == spec_derived_org(
            mid.organization,
            c.sessions@[i].last_active_organization_id,
            u,
        ),
        c.sessions@[i].last_active_organization_id matches Some(b) ==> (membership_index_for_org(
            ms@,
            b@,
        ) matches Some(jb) ==> post.organization == Some(ms@[jb].organization)),
{
    match c.last_active_session_id {
        Some(id) => lemma_session_index_for_is_first_match(c.sessions@, id@),
        None => {},
    }
    lemma_membership_index_for_org_is_first_match(ms@, a@);
}

/// Law: the loaded flag never reverts. Accepting a client snapshot leaves
/// it unchanged, so once the combined bootstrap has set it, every later
/// state still carries it.
pub proof fn lemma_loaded_never_reverts(pre: SessionState, c: Client, post: SessionState)
    requires
        set_client_post(pre, c, post),
        pre.loaded,
    ensures
        post.loaded,
{
}

} // verus!
