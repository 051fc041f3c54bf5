//! Value snapshots received from the remote identity service, plus the
//! search functions that the derivation and organization-resolution rules
//! are built on.
//!
//! Every entity is an immutable snapshot: the synchronizer never edits a
//! field in place, it only replaces whole values.

use vstd::prelude::*;

verus! {

/// An organization the user belongs to: identifier, URL slug, display
/// name and member count.
#[derive(Clone, Debug, PartialEq, Eq)]
pub struct Organization {
    pub id: String,
    pub slug: String,
    pub name: String,
    pub members_count: u64,
}

/// One entry of a user's membership list, tying the user to an
/// [`Organization`] with a role.
#[derive(Clone, Debug, PartialEq, Eq)]
pub struct OrganizationMembership {
    pub organization: Organization,
    pub role: String,
}

/// Profile data for an authenticated user, together with the ordered
/// list of organization memberships (absent when the service did not
/// embed it).
#[derive(Clone, Debug, PartialEq, Eq)]
pub struct User {
    pub id: String,
    pub username: Option<String>,
    pub organization_memberships: Option<Vec<OrganizationMembership>>,
}

/// A browser session belonging to a client, optionally carrying the
/// embedded snapshot of its user.
#[derive(Clone, Debug, PartialEq, Eq)]
pub struct Session {
    pub id: String,
    pub status: String,
    pub user: Option<User>,
    pub last_active_organization_id: Option<String>,
}

/// The root per-device record: an ordered collection of sessions and a
/// pointer to the one that was last active.
#[derive(Clone, Debug, PartialEq, Eq)]
pub struct Client {
    pub id: String,
    pub sessions: Vec<Session>,
    pub last_active_session_id: Option<String>,
}

/// Instance-wide configuration fetched once per process lifetime. The
/// synchronizer stores and returns it without reading into it.
#[derive(Clone, Debug, PartialEq, Eq)]
pub struct Environment {
    pub auth_config_id: String,
    pub organizations_enabled: bool,
}

impl Organization {
    /// An owned copy that is provably equal to the original, so that a
    /// derived organization can outlive the membership list it came from.
    pub fn duplicate(&self) -> (r: Organization)
        ensures
            r == *self,
    {
        Organization {
            id: self.id.clone(),
            slug: self.slug.clone(),
            name: self.name.clone(),
            members_count: self.members_count,
        }
    }
}

/// The position of the first session in `sessions` whose id reads as `id`,
/// if any.
pub open spec fn session_index_for(sessions: Seq<Session>, id: Seq<char>) -> Option<int>
    decreases sessions.len(),
{
    if sessions.len() == 0 {
        None
    } else if sessions[0].id@ == id {
        Some(0)
    } else {
        match session_index_for(sessions.drop_first(), id) {
            Some(j) => Some(j + 1),
            None => None,
        }
    }
}

/// What `session_index_for` finds is a valid position, its session carries
/// the requested id, and no earlier session does; when nothing is found, no
/// session carries the id at all.
pub proof fn lemma_session_index_for_is_first_match(sessions: Seq<Session>, id: Seq<char>)
    ensures
        match session_index_for(sessions, id) {
            Some(i) => {
                &&& 0 <= i < sessions.len()
                &&& sessions[i].id@ == id
                &&& forall|j: int| 0 <= j < i ==> sessions[j].id@ != id
            },
            None => forall|j: int| 0 <= j < sessions.len() ==> sessions[j].id@ != id,
        },
    decreases sessions.len(),
{
    if sessions.len() == 0 {
    } else if sessions[0].id@ == id {
    } else {
        lemma_session_index_for_is_first_match(sessions.drop_first(), id);
        match session_index_for(sessions.drop_first(), id) {
            Some(k) => {
                assert(sessions.drop_first()[k] == sessions[k + 1]);
                assert forall|j: int| 0 <= j < k + 1 implies sessions[j].id@ != id by {
                    if j > 0 {
                        assert(sessions.drop_first()[j - 1] == sessions[j]);
                    }
                }
            },
            None => {
                assert forall|j: int| 0 <= j < sessions.len() implies sessions[j].id@ != id by {
                    if j > 0 {
                        assert(sessions.drop_first()[j - 1] == sessions[j]);
                    }
                }
            },
        }
    }
}

/// The position of the first membership in `memberships` whose
/// organization id reads as `org_id`, if any. This is the lookup used by
/// the derivation rule, which is always given a concrete organization id.
pub open spec fn membership_index_for_org(
    memberships: Seq<OrganizationMembership>,
    org_id: Seq<char>,
) -> Option<int>
    decreases memberships.len(),
{
    if memberships.len() == 0 {
        None
    } else if memberships[0].organization.id@ == org_id {
        Some(0)
    } else {
        match membership_index_for_org(memberships.drop_first(), org_id) {
            Some(j) => Some(j + 1),
            None => None,
        }
    }
}

/// First-match characterization of `membership_index_for_org`.
pub proof fn lemma_membership_index_for_org_is_first_match(
    memberships: Seq<OrganizationMembership>,
    org_id: Seq<char>,
)
    ensures
        match membership_index_for_org(memberships, org_id) {
            Some(i) => {
                &&& 0 <= i < memberships.len()
                &&& memberships[i].organization.id@ == org_id
                &&& forall|j: int| 0 <= j < i ==> memberships[j].organization.id@ != org_id
            },
            None => forall|j: int|
                0 <= j < memberships.len() ==> memberships[j].organization.id@ != org_id,
        },
    decreases memberships.len(),
{
    if memberships.len() == 0 {
    } else if memberships[0].organization.id@ == org_id {
    } else {
        lemma_membership_index_for_org_is_first_match(memberships.drop_first(), org_id);
        match membership_index_for_org(memberships.drop_first(), org_id) {
            Some(k) => {
                assert(memberships.drop_first()[k] == memberships[k + 1]);
                assert forall|j: int| 0 <= j < k + 1 implies memberships[j].organization.id@
                    != org_id by {
                    if j > 0 {
                        assert(memberships.drop_first()[j - 1] == memberships[j]);
                    }
                }
            },
            None => {
                assert forall|j: int| 0 <= j < memberships.len() implies memberships[j].organization.id@
                    != org_id by {
                    if j > 0 {
                        assert(memberships.drop_first()[j - 1] == memberships[j]);
                    }
                }
            },
        }
    }
}

/// Whether a caller-supplied organization identifier is a raw organization
/// id rather than a slug: raw ids carry the `org_` prefix.
pub open spec fn spec_query_is_org_id(q: Seq<char>) -> bool {
    &&& q.len() >= 4
    &&& q[0] == 'o'
    &&& q[1] == 'r'
    &&& q[2] == 'g'
    &&& q[3] == '_'
}

/// Whether a membership answers an id-or-slug query: ids are compared when
/// the query carries the `org_` prefix, slugs otherwise.
pub open spec fn spec_membership_answers(m: OrganizationMembership, q: Seq<char>) -> bool {
    if spec_query_is_org_id(q) {
        m.organization.id@ == q
    } else {
        m.organization.slug@ == q
    }
}

/// The position of the first membership answering an id-or-slug query, if
/// any. This is the lookup used when a caller of `set_active` names an
/// organization.
pub open spec fn membership_index_answering(
    memberships: Seq<OrganizationMembership>,
    q: Seq<char>,
) -> Option<int>
    decreases memberships.len(),
{
    if memberships.len() == 0 {
        None
    } else if spec_membership_answers(memberships[0], q) {
        Some(0)
    } else {
        match membership_index_answering(memberships.drop_first(), q) {
            Some(j) => Some(j + 1),
            None => None,
        }
    }
}

/// First-match characterization of `membership_index_answering`.
pub proof fn lemma_membership_index_answering_is_first_match(
    memberships: Seq<OrganizationMembership>,
    q: Seq<char>,
)
    ensures
        match membership_index_answering(memberships, q) {
            Some(i) => {
                &&& 0 <= i < memberships.len()
                &&& spec_membership_answers(memberships[i], q)
                &&& forall|j: int| 0 <= j < i ==> !spec_membership_answers(memberships[j], q)
            },
            None => forall|j: int|
                0 <= j < memberships.len() ==> !spec_membership_answers(memberships[j], q),
        },
    decreases memberships.len(),
{
    if memberships.len() == 0 {
    } else if spec_membership_answers(memberships[0], q) {
    } else {
        lemma_membership_index_answering_is_first_match(memberships.drop_first(), q);
        match membership_index_answering(memberships.drop_first(), q) {
            Some(k) => {
                assert(memberships.drop_first()[k] == memberships[k + 1]);
                assert forall|j: int| 0 <= j < k + 1 implies !spec_membership_answers(
                    memberships[j],
                    q,
                ) by {
                    if j > 0 {
                        assert(memberships.drop_first()[j - 1] == memberships[j]);
                    }
                }
            },
            None => {
                assert forall|j: int| 0 <= j < memberships.len() implies !spec_membership_answers(
                    memberships[j],
                    q,
                ) by {
                    if j > 0 {
                        assert(memberships.drop_first()[j - 1] == memberships[j]);
                    }
                }
            },
        }
    }
}

/// String comparison by contents.
pub fn string_eq(a: &String, b: &String) -> (r: bool)
    ensures
        r == (a@ == b@),
{
    *a == *b
}

/// Whether a caller-supplied organization identifier carries the `org_`
/// prefix that marks raw organization ids.
pub fn query_is_org_id(q: &String) -> (r: bool)
    ensures
        r == spec_query_is_org_id(q@),
{
    let s = q.as_str();
    if s.unicode_len() < 4 {
        return false;
    }
    s.get_char(0) == 'o' && s.get_char(1) == 'r' && s.get_char(2) == 'g' && s.get_char(3) == '_'
}

/// The position of the first session in `sessions` whose id equals `id`.
pub fn find_session_index(sessions: &Vec<Session>, id: &String) -> (r: Option<usize>)
    ensures
        match r {
            Some(i) => session_index_for(sessions@, id@) == Some(i as int),
            None => session_index_for(sessions@, id@) is None,
        },
{
    proof {
        lemma_session_index_for_is_first_match(sessions@, id@);
    }
    let n = sessions.len();
    let mut i: usize = 0;
    while i < n
        invariant
            i <= n,
            n == sessions@.len(),
            forall|j: int| 0 <= j < i ==> sessions@[j].id@ != id@,
            match session_index_for(sessions@, id@) {
                Some(k) => {
                    &&& 0 <= k < sessions@.len()
                    &&& sessions@[k].id@ == id@
                    &&& forall|j: int| 0 <= j < k ==> sessions@[j].id@ != id@
                },
                None => forall|j: int| 0 <= j < sessions@.len() ==> sessions@[j].id@ != id@,
            },
        decreases n - i,
    {
        if string_eq(&sessions[i].id, id) {
            return Some(i);
        }
        i += 1;
    }
    None
}

/// The position of the first membership whose organization id equals
/// `org_id`.
pub fn find_membership_index_for_org(
    memberships: &Vec<OrganizationMembership>,
    org_id: &String,
) -> (r: Option<usize>)
    ensures
        match r {
            Some(i) => membership_index_for_org(memberships@, org_id@) == Some(i as int),
            None => membership_index_for_org(memberships@, org_id@) is None,
        },
{
    proof {
        lemma_membership_index_for_org_is_first_match(memberships@, org_id@);
    }
    let n = memberships.len();
    let mut i: usize = 0;
    while i < n
        invariant
            i <= n,
            n == memberships@.len(),
            forall|j: int| 0 <= j < i ==> memberships@[j].organization.id@ != org_id@,
            match membership_index_for_org(memberships@, org_id@) {
                Some(k) => {
                    &&& 0 <= k < memberships@.len()
                    &&& memberships@[k].organization.id@ == org_id@
                    &&& forall|j: int|
                        0 <= j < k ==> memberships@[j].organization.id@ != org_id@
                },
                None => forall|j: int|
                    0 <= j < memberships@.len() ==> memberships@[j].organization.id@ != org_id@,
            },
        decreases n - i,
    {
        if string_eq(&memberships[i].organization.id, org_id) {
            return Some(i);
        }
        i += 1;
    }
    None
}

/// The position of the first membership answering an id-or-slug query.
pub fn find_membership_index_answering(
    memberships: &Vec<OrganizationMembership>,
    q: &String,
) -> (r: Option<usize>)
    ensures
        match r {
            Some(i) => membership_index_answering(memberships@, q@) == Some(i as int),
            None => membership_index_answering(memberships@, q@) is None,
        },
{
    proof {
        lemma_membership_index_answering_is_first_match(memberships@, q@);
    }
    let by_id = query_is_org_id(q);
    let n = memberships.len();
    let mut i: usize = 0;
    while i < n
        invariant
            i <= n,
            n == memberships@.len(),
            by_id == spec_query_is_org_id(q@),
            forall|j: int| 0 <= j < i ==> !spec_membership_answers(memberships@[j], q@),
            match membership_index_answering(memberships@, q@) {
                Some(k) => {
                    &&& 0 <= k < memberships@.len()
                    &&& spec_membership_answers(memberships@[k], q@)
                    &&& forall|j: int|
                        0 <= j < k ==> !spec_membership_answers(memberships@[j], q@)
                },
                None => forall|j: int|
                    0 <= j < memberships@.len() ==> !spec_membership_answers(
                        memberships@[j],
                        q@,
                    ),
            },
        decreases n - i,
    {
        let hit = if by_id {
            string_eq(&memberships[i].organization.id, q)
        } else {
            string_eq(&memberships[i].organization.slug, q)
        };
        if hit {
            return Some(i);
        }
        i += 1;
    }
    None
}

/// Resolves a caller-supplied organization id or slug against a membership
/// list: queries with the `org_` prefix are matched against organization
/// ids, all others against slugs. Returns the first membership that
/// answers the query.
pub fn find_organization_id_from_memberships(
    memberships: Vec<OrganizationMembership>,
    organization_id_or_slug: String,
) -> (r: Option<OrganizationMembership>)
    ensures
        match membership_index_answering(memberships@, organization_id_or_slug@) {
            Some(i) => r matches Some(m) && m == memberships@[i],
            None => r is None,
        },
{
    proof {
        lemma_membership_index_answering_is_first_match(memberships@, organization_id_or_slug@);
    }
    let mut memberships = memberships;
    match find_membership_index_answering(&memberships, &organization_id_or_slug) {
        Some(i) => Some(memberships.remove(i)),
        None => None,
    }
}

} // verus!
