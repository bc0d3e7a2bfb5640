//! The snapshot and the derivation rules that keep it consistent.
//!
//! The snapshot is the tuple (environment, client, session, user,
//! organization, loaded). The session, user and organization members are
//! never set independently: they are always derived from the client record
//! and its active-session / active-organization pointers. This module
//! defines that derivation mathematically (`derived_session`,
//! `derived_user`, `derived_organization`), states the well-formedness of a
//! snapshot (`snapshot_wf`), proves the laws the derivation obeys, and
//! implements the executable derivation used by the state manager.

use vstd::prelude::*;

use crate::entities::Client;
use crate::entities::ClientView;
use crate::entities::Environment;
use crate::entities::Organization;
use crate::entities::OrganizationMembership;
use crate::entities::OrganizationMembershipView;
use crate::entities::OrganizationView;
use crate::entities::Session;
use crate::entities::SessionView;
use crate::entities::TriState;
use crate::entities::User;
use crate::entities::UserView;

verus! {

/// The first session in `ss` whose id equals `id`, if any.
pub open spec fn find_session(ss: Seq<SessionView>, id: Seq<char>) -> Option<SessionView>
    decreases ss.len(),
{
    if ss.len() == 0 {
        None
    } else if ss[0].id == id {
        Some(ss[0])
    } else {
        find_session(ss.drop_first(), id)
    }
}

/// The first membership in `ms` whose organization id equals `org_id`, if any.
pub open spec fn find_membership_by_org_id(
    ms: Seq<OrganizationMembershipView>,
    org_id: Seq<char>,
) -> Option<OrganizationMembershipView>
    decreases ms.len(),
{
    if ms.len() == 0 {
        None
    } else if ms[0].organization.id == org_id {
        Some(ms[0])
    } else {
        find_membership_by_org_id(ms.drop_first(), org_id)
    }
}

/// The first membership in `ms` whose organization slug equals `slug`, if any.
pub open spec fn find_membership_by_slug(
    ms: Seq<OrganizationMembershipView>,
    slug: Seq<char>,
) -> Option<OrganizationMembershipView>
    decreases ms.len(),
{
    if ms.len() == 0 {
        None
    } else if ms[0].organization.slug == slug {
        Some(ms[0])
    } else {
        find_membership_by_slug(ms.drop_first(), slug)
    }
}

/// The session a client record makes active: the first entry of its session
/// list whose id equals its active-session pointer; none when the pointer is
/// null or matches no entry.
pub open spec fn derived_session(c: ClientView) -> Option<SessionView> {
    match c.last_active_session_id {
        Some(id) => find_session(c.sessions, id),
        None => None,
    }
}

/// The user a client record makes active: the user embedded in the derived
/// session, when that session carries one.
pub open spec fn derived_user(c: ClientView) -> Option<UserView> {
    match derived_session(c) {
        Some(s) => match s.user {
            TriState::Value(u) => Some(u),
            _ => None,
        },
        None => None,
    }
}

/// The organization a client record makes active: the organization of the
/// first membership of the derived user whose id equals the derived
/// session's active-organization pointer; none when there is no derived
/// user, the pointer is null, or no membership matches.
pub open spec fn derived_organization(c: ClientView) -> Option<OrganizationView> {
    match derived_session(c) {
        Some(s) => match s.user {
            TriState::Value(u) => match s.last_active_organization_id {
                Some(oid) => match find_membership_by_org_id(u.organization_memberships, oid) {
                    Some(m) => Some(m.organization),
                    None => None,
                },
                None => None,
            },
            _ => None,
        },
        None => None,
    }
}

/// The in-memory snapshot owned by the state manager.
#[derive(Debug, PartialEq, Eq)]
pub struct Snapshot {
    pub environment: Option<Environment>,
    pub client: Option<Client>,
    pub session: Option<Session>,
    pub user: Option<User>,
    pub organization: Option<Organization>,
    pub loaded: bool,
}

#[verifier::ext_equal]
pub struct SnapshotView {
    pub environment: Option<Seq<char>>,
    pub client: Option<ClientView>,
    pub session: Option<SessionView>,
    pub user: Option<UserView>,
    pub organization: Option<OrganizationView>,
    pub loaded: bool,
}

impl View for Snapshot {
    type V = SnapshotView;

    open spec fn view(&self) -> SnapshotView {
        SnapshotView {
            environment: self.environment.deep_view(),
            client: self.client.deep_view(),
            session: self.session.deep_view(),
            user: self.user.deep_view(),
            organization: self.organization.deep_view(),
            loaded: self.loaded,
        }
    }
}

/// A snapshot is well formed when its session, user and organization members
/// are exactly the ones derived from its client record, and are absent when
/// there is no client record.
pub open spec fn snapshot_wf(s: SnapshotView) -> bool {
    match s.client {
        Some(c) => {
            &&& s.session == derived_session(c)
            &&& s.user == derived_user(c)
            &&& s.organization == derived_organization(c)
        },
        None => {
            &&& s.session is None
            &&& s.user is None
            &&& s.organization is None
        },
    }
}

pub proof fn lemma_find_session_at(ss: Seq<SessionView>, id: Seq<char>, i: int)
    requires
        0 <= i < ss.len(),
        ss[i].id == id,
        forall|j: int| 0 <= j < i ==> ss[j].id != id,
    ensures
        find_session(ss, id) == Some(ss[i]),
    decreases i,
{
    if i > 0 {
        lemma_find_session_at(ss.drop_first(), id, i - 1);
    }
}

pub proof fn lemma_find_session_none(ss: Seq<SessionView>, id: Seq<char>)
    requires
        forall|j: int| 0 <= j < ss.len() ==> ss[j].id != id,
    ensures
        find_session(ss, id) is None,
    decreases ss.len(),
{
    if ss.len() > 0 {
        lemma_find_session_none(ss.drop_first(), id);
    }
}

pub proof fn lemma_find_session_some(ss: Seq<SessionView>, id: Seq<char>)
    ensures
        find_session(ss, id) matches Some(s) ==> s.id == id && exists|i: int|
            0 <= i < ss.len() && ss[i] == s,
    decreases ss.len(),
{
    if ss.len() > 0 && ss[0].id != id {
        lemma_find_session_some(ss.drop_first(), id);
        if find_session(ss, id) is Some {
            let s = find_session(ss, id)->0;
            let i = choose|i: int| 0 <= i < ss.drop_first().len() && ss.drop_first()[i] == s;
            assert(ss[i + 1] == s);
        }
    }
}

pub proof fn lemma_find_membership_by_org_id_at(
    ms: Seq<OrganizationMembershipView>,
    org_id: Seq<char>,
    i: int,
)
    requires
        0 <= i < ms.len(),
        ms[i].organization.id == org_id,
        forall|j: int| 0 <= j < i ==> ms[j].organization.id != org_id,
    ensures
        find_membership_by_org_id(ms, org_id) == Some(ms[i]),
    decreases i,
{
    if i > 0 {
        lemma_find_membership_by_org_id_at(ms.drop_first(), org_id, i - 1);
    }
}

pub proof fn lemma_find_membership_by_org_id_none(
    ms: Seq<OrganizationMembershipView>,
    org_id: Seq<char>,
)
    requires
        forall|j: int| 0 <= j < ms.len() ==> ms[j].organization.id != org_id,
    ensures
        find_membership_by_org_id(ms, org_id) is None,
    decreases ms.len(),
{
    if ms.len() > 0 {
        lemma_find_membership_by_org_id_none(ms.drop_first(), org_id);
    }
}

pub proof fn lemma_find_membership_by_org_id_some(
    ms: Seq<OrganizationMembershipView>,
    org_id: Seq<char>,
)
    ensures
        find_membership_by_org_id(ms, org_id) matches Some(m) ==> m.organization.id == org_id
            && exists|i: int| 0 <= i < ms.len() && ms[i] == m,
    decreases ms.len(),
{
    if ms.len() > 0 && ms[0].organization.id != org_id {
        lemma_find_membership_by_org_id_some(ms.drop_first(), org_id);
        if find_membership_by_org_id(ms, org_id) is Some {
            let m = find_membership_by_org_id(ms, org_id)->0;
            let i = choose|i: int| 0 <= i < ms.drop_first().len() && ms.drop_first()[i] == m;
            assert(ms[i + 1] == m);
        }
    }
}

pub proof fn lemma_find_membership_by_slug_at(
    ms: Seq<OrganizationMembershipView>,
    slug: Seq<char>,
    i: int,
)
    requires
        0 <= i < ms.len(),
        ms[i].organization.slug == slug,
        forall|j: int| 0 <= j < i ==> ms[j].organization.slug != slug,
    ensures
        find_membership_by_slug(ms, slug) == Some(ms[i]),
    decreases i,
{
    if i > 0 {
        lemma_find_membership_by_slug_at(ms.drop_first(), slug, i - 1);
    }
}

pub proof fn lemma_find_membership_by_slug_none(
    ms: Seq<OrganizationMembershipView>,
    slug: Seq<char>,
)
    requires
        forall|j: int| 0 <= j < ms.len() ==> ms[j].organization.slug != slug,
    ensures
        find_membership_by_slug(ms, slug) is None,
    decreases ms.len(),
{
    if ms.len() > 0 {
        lemma_find_membership_by_slug_none(ms.drop_first(), slug);
    }
}

/// Derivation invariant: when a client's active-session pointer names the
/// first matching session at index `i` of its list, that session becomes the
/// derived session, and its embedded user (when present) the derived user.
pub proof fn lemma_derivation_invariant(c: ClientView, i: int)
    requires
        c.last_active_session_id is Some,
        0 <= i < c.sessions.len(),
        c.sessions[i].id == c.last_active_session_id->0,
        forall|j: int| 0 <= j < i ==> c.sessions[j].id != c.last_active_session_id->0,
    ensures
        derived_session(c) == Some(c.sessions[i]),
        c.sessions[i].user matches TriState::Value(u) ==> derived_user(c) == Some(u),
{
    lemma_find_session_at(c.sessions, c.last_active_session_id->0, i);
}

/// No-match clears state: when the active-session pointer is null or names
/// no session of the list, nothing is derived.
pub proof fn lemma_no_match_clears(c: ClientView)
    requires
        c.last_active_session_id matches Some(id) ==> forall|j: int|
            0 <= j < c.sessions.len() ==> c.sessions[j].id != id,
    ensures
        derived_session(c) is None,
        derived_user(c) is None,
        derived_organization(c) is None,
{
    if c.last_active_session_id is Some {
        lemma_find_session_none(c.sessions, c.last_active_session_id->0);
    }
}

/// Organization resolution: when the derived session carries a user and an
/// active-organization pointer that names the organization of the first
/// matching membership at index `i`, that organization is derived.
pub proof fn lemma_organization_resolution(c: ClientView, u: UserView, oid: Seq<char>, i: int)
    requires
        derived_session(c) is Some,
        derived_session(c)->0.user == TriState::Value(u),
        derived_session(c)->0.last_active_organization_id == Some(oid),
        0 <= i < u.organization_memberships.len(),
        u.organization_memberships[i].organization.id == oid,
        forall|j: int| 0 <= j < i ==> u.organization_memberships[j].organization.id != oid,
    ensures
        derived_organization(c) == Some(u.organization_memberships[i].organization),
{
    lemma_find_membership_by_org_id_at(u.organization_memberships, oid, i);
}

/// Organization resolution, absent case: when the active-organization
/// pointer names no membership of the derived user, no organization is
/// derived.
pub proof fn lemma_organization_resolution_absent(c: ClientView, u: UserView, oid: Seq<char>)
    requires
        derived_session(c) is Some,
        derived_session(c)->0.user == TriState::Value(u),
        derived_session(c)->0.last_active_organization_id == Some(oid),
        forall|j: int| 0 <= j < u.organization_memberships.len()
            ==> u.organization_memberships[j].organization.id != oid,
    ensures
        derived_organization(c) is None,
{
    lemma_find_membership_by_org_id_none(u.organization_memberships, oid);
}

/// The well-formedness of a snapshot implies the stated invariants of the
/// data model: the session is an entry of the client's list matching its
/// active-session pointer; without a session there is no user and no
/// organization; the user is the one embedded in the session; the
/// organization belongs to one of the user's memberships and matches the
/// session's active-organization pointer.
pub proof fn lemma_snapshot_invariants(s: SnapshotView)
    requires
        snapshot_wf(s),
    ensures
        s.session matches Some(sv) ==> {
            &&& s.client matches Some(c)
            &&& c.last_active_session_id matches Some(id)
            &&& sv.id == id
            &&& exists|i: int| 0 <= i < c.sessions.len() && c.sessions[i] == sv
        },
        s.session is None ==> s.user is None && s.organization is None,
        s.user matches Some(u) ==> s.session matches Some(sv) && sv.user == TriState::Value(u),
        s.organization matches Some(o) ==> {
            &&& s.user matches Some(u)
            &&& s.session matches Some(sv)
            &&& sv.last_active_organization_id matches Some(oid)
            &&& o.id == oid
            &&& exists|i: int| 0 <= i < u.organization_memberships.len()
                && u.organization_memberships[i].organization == o
        },
{
    if s.client is Some {
        let c = s.client->0;
        if c.last_active_session_id is Some {
            lemma_find_session_some(c.sessions, c.last_active_session_id->0);
        }
        if s.organization is Some {
            let sv = derived_session(c)->0;
            let u = sv.user->0;
            lemma_find_membership_by_org_id_some(
                u.organization_memberships,
                sv.last_active_organization_id->0,
            );
        }
    }
}

/// Index of the first session of `sessions` whose id equals `id`.
pub(crate) fn find_session_index(sessions: &Vec<Session>, id: &String) -> (r: Option<usize>)
    ensures
        match r {
            Some(i) => {
                &&& (i as int) < sessions.deep_view().len()
                &&& sessions.deep_view()[i as int].id == id@
                &&& forall|j: int| 0 <= j < i as int ==> sessions.deep_view()[j].id != id@
            },
            None => forall|j: int| 0 <= j < sessions.deep_view().len()
                ==> sessions.deep_view()[j].id != id@,
        },
{
    let mut i: usize = 0;
    while i < sessions.len()
        invariant
            i <= sessions.len(),
            forall|j: int| 0 <= j < i as int ==> sessions.deep_view()[j].id != id@,
        decreases sessions.len() - i,
    {
        if sessions[i].id == *id {
            return Some(i);
        }
        i += 1;
    }
    None
}

/// Index of the first membership of `ms` whose organization id equals `org_id`.
pub(crate) fn find_membership_index_by_org_id(
    ms: &Vec<OrganizationMembership>,
    org_id: &String,
) -> (r: Option<usize>)
    ensures
        match r {
            Some(i) => {
                &&& (i as int) < ms.deep_view().len()
                &&& ms.deep_view()[i as int].organization.id == org_id@
                &&& forall|j: int| 0 <= j < i as int
                    ==> ms.deep_view()[j].organization.id != org_id@
            },
            None => forall|j: int| 0 <= j < ms.deep_view().len()
                ==> ms.deep_view()[j].organization.id != org_id@,
        },
{
    let mut i: usize = 0;
    while i < ms.len()
        invariant
            i <= ms.len(),
            forall|j: int| 0 <= j < i as int ==> ms.deep_view()[j].organization.id != org_id@,
        decreases ms.len() - i,
    {
        if ms[i].organization.id == *org_id {
            return Some(i);
        }
        i += 1;
    }
    None
}

/// Index of the first membership of `ms` whose organization slug equals `slug`.
pub(crate) fn find_membership_index_by_slug(
    ms: &Vec<OrganizationMembership>,
    slug: &String,
) -> (r: Option<usize>)
    ensures
        match r {
            Some(i) => {
                &&& (i as int) < ms.deep_view().len()
                &&& ms.deep_view()[i as int].organization.slug == slug@
                &&& forall|j: int| 0 <= j < i as int
                    ==> ms.deep_view()[j].organization.slug != slug@
            },
            None => forall|j: int| 0 <= j < ms.deep_view().len()
                ==> ms.deep_view()[j].organization.slug != slug@,
        },
{
    let mut i: usize = 0;
    while i < ms.len()
        invariant
            i <= ms.len(),
            forall|j: int| 0 <= j < i as int ==> ms.deep_view()[j].organization.slug != slug@,
        decreases ms.len() - i,
    {
        if ms[i].organization.slug == *slug {
            return Some(i);
        }
        i += 1;
    }
    None
}

/// Computes the members derived from a client record: the active session,
/// its embedded user, and the active organization among that user's
/// memberships.
pub fn derive_accessors(client: &Client) -> (r: (Option<Session>, Option<User>, Option<Organization>))
    ensures
        r.0.deep_view() == derived_session(client@),
        r.1.deep_view() == derived_user(client@),
        r.2.deep_view() == derived_organization(client@),
{
    let found: Option<usize> = match &client.last_active_session_id {
        Some(id) => find_session_index(&client.sessions, id),
        None => None,
    };
    match found {
        None => {
            proof {
                lemma_no_match_clears(client@);
            }
            (None, None, None)
        },
        Some(i) => {
            let session = client.sessions[i].clone();
            proof {
                lemma_find_session_at(
                    client@.sessions,
                    client@.last_active_session_id->0,
                    i as int,
                );
            }
            match &session.user {
                TriState::Value(user) => {
                    let u = user.clone();
                    let organization: Option<Organization> = match &session
                        .last_active_organization_id {
                        Some(oid) => {
                            match find_membership_index_by_org_id(
                                &user.organization_memberships,
                                oid,
                            ) {
                                Some(k) => {
                                    proof {
                                        lemma_find_membership_by_org_id_at(
                                            user@.organization_memberships,
                                            oid@,
                                            k as int,
                                        );
                                    }
                                    Some(user.organization_memberships[k].organization.clone())
                                },
                                None => {
                                    proof {
                                        lemma_find_membership_by_org_id_none(
                                            user@.organization_memberships,
                                            oid@,
                                        );
                                    }
                                    None
                                },
                            }
                        },
                        None => None,
                    };
                    (Some(session), Some(u), organization)
                },
                _ => (Some(session), None, None),
            }
        },
    }
}

} // verus!
