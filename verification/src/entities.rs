//! The data model of the snapshot: client, session, user, organization and
//! environment records, plus the three-way field state used where the wire
//! format distinguishes an absent field from an explicit null.
//!
//! Each record type has a mathematical view (`OrganizationView`, `UserView`,
//! ...) over which the contracts of the state manager are stated.

use vstd::prelude::*;

verus! {

/// A field that the wire format may leave out, set to null, or fill.
#[derive(Debug, PartialEq, Eq)]
pub enum TriState<T> {
    Unset,
    ExplicitNull,
    Value(T),
}

impl<T: DeepView> DeepView for TriState<T> {
    type V = TriState<T::V>;

    open spec fn deep_view(&self) -> TriState<T::V> {
        match self {
            TriState::Unset => TriState::Unset,
            TriState::ExplicitNull => TriState::ExplicitNull,
            TriState::Value(t) => TriState::Value(t.deep_view()),
        }
    }
}

/// An organization profile.
#[derive(Debug, PartialEq, Eq)]
pub struct Organization {
    pub id: String,
    pub name: String,
    pub slug: String,
}

#[verifier::ext_equal]
pub struct OrganizationView {
    pub id: Seq<char>,
    pub name: Seq<char>,
    pub slug: Seq<char>,
}

impl View for Organization {
    type V = OrganizationView;

    open spec fn view(&self) -> OrganizationView {
        OrganizationView { id: self.id@, name: self.name@, slug: self.slug@ }
    }
}

impl DeepView for Organization {
    type V = OrganizationView;

    open spec fn deep_view(&self) -> OrganizationView {
        self.view()
    }
}

/// Links a user to an organization with a role.
#[derive(Debug, PartialEq, Eq)]
pub struct OrganizationMembership {
    pub organization: Organization,
    pub role: String,
}

#[verifier::ext_equal]
pub struct OrganizationMembershipView {
    pub organization: OrganizationView,
    pub role: Seq<char>,
}

impl View for OrganizationMembership {
    type V = OrganizationMembershipView;

    open spec fn view(&self) -> OrganizationMembershipView {
        OrganizationMembershipView { organization: self.organization@, role: self.role@ }
    }
}

impl DeepView for OrganizationMembership {
    type V = OrganizationMembershipView;

    open spec fn deep_view(&self) -> OrganizationMembershipView {
        self.view()
    }
}

/// A user snapshot as embedded in a session.
#[derive(Debug, PartialEq, Eq)]
pub struct User {
    pub id: String,
    pub first_name: Option<String>,
    pub last_name: Option<String>,
    pub organization_memberships: Vec<OrganizationMembership>,
}

#[verifier::ext_equal]
pub struct UserView {
    pub id: Seq<char>,
    pub first_name: Option<Seq<char>>,
    pub last_name: Option<Seq<char>>,
    pub organization_memberships: Seq<OrganizationMembershipView>,
}

impl View for User {
    type V = UserView;

    open spec fn view(&self) -> UserView {
        UserView {
            id: self.id@,
            first_name: self.first_name.deep_view(),
            last_name: self.last_name.deep_view(),
            organization_memberships: self.organization_memberships.deep_view(),
        }
    }
}

impl DeepView for User {
    type V = UserView;

    open spec fn deep_view(&self) -> UserView {
        self.view()
    }
}

/// One session of a client. Sessions carry their own user snapshot.
#[derive(Debug, PartialEq, Eq)]
pub struct Session {
    pub id: String,
    pub status: String,
    pub user: TriState<User>,
    pub last_active_organization_id: Option<String>,
}

#[verifier::ext_equal]
pub struct SessionView {
    pub id: Seq<char>,
    pub status: Seq<char>,
    pub user: TriState<UserView>,
    pub last_active_organization_id: Option<Seq<char>>,
}

impl View for Session {
    type V = SessionView;

    open spec fn view(&self) -> SessionView {
        SessionView {
            id: self.id@,
            status: self.status@,
            user: self.user.deep_view(),
            last_active_organization_id: self.last_active_organization_id.deep_view(),
        }
    }
}

impl DeepView for Session {
    type V = SessionView;

    open spec fn deep_view(&self) -> SessionView {
        self.view()
    }
}

/// The root record: an ordered list of sessions and an optional pointer to
/// the one that is active.
#[derive(Debug, PartialEq, Eq)]
pub struct Client {
    pub id: String,
    pub sessions: Vec<Session>,
    pub last_active_session_id: Option<String>,
}

#[verifier::ext_equal]
pub struct ClientView {
    pub id: Seq<char>,
    pub sessions: Seq<SessionView>,
    pub last_active_session_id: Option<Seq<char>>,
}

impl View for Client {
    type V = ClientView;

    open spec fn view(&self) -> ClientView {
        ClientView {
            id: self.id@,
            sessions: self.sessions.deep_view(),
            last_active_session_id: self.last_active_session_id.deep_view(),
        }
    }
}

impl DeepView for Client {
    type V = ClientView;

    open spec fn deep_view(&self) -> ClientView {
        self.view()
    }
}

/// The environment configuration. Opaque to the state manager beyond being
/// cached, persisted and refreshed; it carries the serialized configuration
/// as produced and consumed by the embedding.
#[derive(Debug, PartialEq, Eq)]
pub struct Environment {
    pub raw: String,
}

impl View for Environment {
    type V = Seq<char>;

    open spec fn view(&self) -> Seq<char> {
        self.raw@
    }
}

impl DeepView for Environment {
    type V = Seq<char>;

    open spec fn deep_view(&self) -> Seq<char> {
        self.view()
    }
}

fn clone_opt_string(s: &Option<String>) -> (r: Option<String>)
    ensures
        r == *s,
{
    match s {
        Some(v) => Some(v.clone()),
        None => None,
    }
}

impl Clone for Organization {
    fn clone(&self) -> (r: Self)
        ensures
            r == *self,
    {
        Organization { id: self.id.clone(), name: self.name.clone(), slug: self.slug.clone() }
    }
}

impl Clone for OrganizationMembership {
    fn clone(&self) -> (r: Self)
        ensures
            r == *self,
    {
        OrganizationMembership { organization: self.organization.clone(), role: self.role.clone() }
    }
}

fn clone_memberships(v: &Vec<OrganizationMembership>) -> (r: Vec<OrganizationMembership>)
    ensures
        r@ == v@,
{
    let mut r: Vec<OrganizationMembership> = Vec::new();
    let mut i: usize = 0;
    while i < v.len()
        invariant
            i <= v.len(),
            r@ == v@.subrange(0, i as int),
        decreases v.len() - i,
    {
        r.push(v[i].clone());
        proof {
            assert(r@ =~= v@.subrange(0, i + 1 as int));
        }
        i += 1;
    }
    proof {
        assert(r@ =~= v@);
    }
    r
}

impl Clone for User {
    fn clone(&self) -> (r: Self)
        ensures
            r@ == self@,
    {
        let r = User {
            id: self.id.clone(),
            first_name: clone_opt_string(&self.first_name),
            last_name: clone_opt_string(&self.last_name),
            organization_memberships: clone_memberships(&self.organization_memberships),
        };
        proof {
            assert(r@ =~= self@);
        }
        r
    }
}

impl Clone for TriState<User> {
    fn clone(&self) -> (r: Self)
        ensures
            r.deep_view() == self.deep_view(),
    {
        match self {
            TriState::Unset => TriState::Unset,
            TriState::ExplicitNull => TriState::ExplicitNull,
            TriState::Value(u) => TriState::Value(u.clone()),
        }
    }
}

impl Clone for TriState<i64> {
    fn clone(&self) -> (r: Self)
        ensures
            r == *self,
    {
        match self {
            TriState::Unset => TriState::Unset,
            TriState::ExplicitNull => TriState::ExplicitNull,
            TriState::Value(n) => TriState::Value(*n),
        }
    }
}

impl Clone for Session {
    fn clone(&self) -> (r: Self)
        ensures
            r@ == self@,
    {
        let r = Session {
            id: self.id.clone(),
            status: self.status.clone(),
            user: self.user.clone(),
            last_active_organization_id: clone_opt_string(&self.last_active_organization_id),
        };
        proof {
            assert(r@ =~= self@);
        }
        r
    }
}

fn clone_sessions(v: &Vec<Session>) -> (r: Vec<Session>)
    ensures
        r.deep_view() == v.deep_view(),
{
    let mut r: Vec<Session> = Vec::new();
    let mut i: usize = 0;
    while i < v.len()
        invariant
            i <= v.len(),
            r@.len() == i,
            forall|j: int| 0 <= j < i ==> #[trigger] r@[j]@ == v@[j]@,
        decreases v.len() - i,
    {
        r.push(v[i].clone());
        i += 1;
    }
    proof {
        assert forall|j: int| 0 <= j < v@.len() implies r.deep_view()[j] == #[trigger] v.deep_view()[j] by {
            assert(r@[j]@ == v@[j]@);
        }
        assert(r.deep_view() =~= v.deep_view());
    }
    r
}

impl Clone for Client {
    fn clone(&self) -> (r: Self)
        ensures
            r@ == self@,
    {
        let r = Client {
            id: self.id.clone(),
            sessions: clone_sessions(&self.sessions),
            last_active_session_id: clone_opt_string(&self.last_active_session_id),
        };
        proof {
            assert(r@ =~= self@);
        }
        r
    }
}

impl Clone for Environment {
    fn clone(&self) -> (r: Self)
        ensures
            r == *self,
    {
        Environment { raw: self.raw.clone() }
    }
}

pub fn clone_opt_environment(v: &Option<Environment>) -> (r: Option<Environment>)
    ensures
        r.deep_view() == v.deep_view(),
{
    match v {
        Some(e) => Some(e.clone()),
        None => None,
    }
}

pub fn clone_opt_client(v: &Option<Client>) -> (r: Option<Client>)
    ensures
        r.deep_view() == v.deep_view(),
{
    match v {
        Some(c) => Some(c.clone()),
        None => None,
    }
}

pub fn clone_opt_session(v: &Option<Session>) -> (r: Option<Session>)
    ensures
        r.deep_view() == v.deep_view(),
{
    match v {
        Some(s) => Some(s.clone()),
        None => None,
    }
}

pub fn clone_opt_user(v: &Option<User>) -> (r: Option<User>)
    ensures
        r.deep_view() == v.deep_view(),
{
    match v {
        Some(u) => Some(u.clone()),
        None => None,
    }
}

pub fn clone_opt_organization(v: &Option<Organization>) -> (r: Option<Organization>)
    ensures
        r.deep_view() == v.deep_view(),
{
    match v {
        Some(o) => Some(o.clone()),
        None => None,
    }
}

} // verus!
