//! The state manager.
//!
//! `Clerk` owns the snapshot and is the only way to change it. Operations
//! that need the remote gateway are split in two: a decision step that
//! inspects the snapshot and says which gateway call to make, and a commit
//! step that folds the gateway's answer back into the snapshot. The
//! embedding makes the calls, performs the returned store writes, and
//! invokes the registered listener callbacks with the returned
//! notifications; everything the snapshot does with those answers is
//! decided and proved here.

use vstd::prelude::*;
use vstd::string::StrSliceExecFns;

use crate::effects::Notification;
use crate::effects::StoreWrite;
use crate::entities::clone_opt_client;
use crate::entities::clone_opt_environment;
use crate::entities::clone_opt_organization;
use crate::entities::clone_opt_session;
use crate::entities::clone_opt_user;
use crate::entities::Client;
use crate::entities::Environment;
use crate::entities::Organization;
use crate::entities::Session;
use crate::entities::SessionView;
use crate::entities::TriState;
use crate::entities::User;
use crate::errors::ClerkError;
use crate::errors::ClerkErrorView;
use crate::errors::NotFoundKind;
use crate::snapshot::derive_accessors;
use crate::snapshot::derived_organization;
use crate::snapshot::derived_session;
use crate::snapshot::derived_user;
use crate::snapshot::find_membership_by_org_id;
use crate::snapshot::find_membership_by_slug;
use crate::snapshot::find_membership_index_by_org_id;
use crate::snapshot::find_membership_index_by_slug;
use crate::snapshot::find_session;
use crate::snapshot::find_session_index;
use crate::snapshot::lemma_find_membership_by_org_id_at;
use crate::snapshot::lemma_find_membership_by_org_id_none;
use crate::snapshot::lemma_find_membership_by_slug_at;
use crate::snapshot::lemma_find_membership_by_slug_none;
use crate::snapshot::lemma_find_session_at;
use crate::snapshot::lemma_find_session_none;
use crate::snapshot::snapshot_wf;
use crate::snapshot::Snapshot;
use crate::snapshot::SnapshotView;

verus! {

/// How long the background refresher waits after a failed fetch before it
/// tries again, in seconds.
pub const REFRESH_RETRY_SECONDS: u64 = 900;

/// What a call of `load` has to do.
#[derive(Debug, PartialEq, Eq)]
pub enum LoadPlan {
    /// The snapshot is already loaded; return at once without touching the
    /// gateway or the store.
    AlreadyLoaded,
    /// Bootstrap the environment and the client, then mark the snapshot
    /// loaded.
    Bootstrap,
}

/// The gateway call `get_token` delegates to.
#[derive(Debug, PartialEq, Eq)]
pub enum TokenRequest {
    /// Create a plain session token, optionally scoped to an organization.
    Standard { session_id: String, organization_id: Option<String> },
    /// Create a session token from a named template.
    WithTemplate { session_id: String, template: String },
}

/// The gateway call `sign_out` delegates to.
#[derive(Debug, PartialEq, Eq)]
pub enum SignOutRequest {
    /// Remove the one named session.
    RemoveSession(String),
    /// Remove every session of the client while retaining its cookie.
    RemoveAllSessions,
}

/// What the background refresher asks its runner to do next.
#[derive(Debug, PartialEq, Eq)]
pub enum RefreshAction {
    /// The fetch succeeded: apply the fetched record and stop the loop.
    ApplyAndFinish,
    /// The fetch failed: wait the given number of seconds, then fetch again.
    RetryAfterSeconds(u64),
    /// The refresher had already finished; nothing is left to do.
    AlreadyFinished,
}

/// The retry loop that replaces a cached record with a fresh one: it fetches
/// until one fetch succeeds, waiting a fixed interval after every failure,
/// and then stops for good. Failures are never surfaced to any caller.
#[derive(Debug, PartialEq, Eq)]
pub struct BackgroundRefresher {
    finished: bool,
}

impl BackgroundRefresher {
    /// Whether a fetch has succeeded and the loop has stopped.
    pub closed spec fn spec_finished(&self) -> bool {
        self.finished
    }

    pub fn new() -> (r: BackgroundRefresher)
        ensures
            !r.spec_finished(),
    {
        BackgroundRefresher { finished: false }
    }

    /// Decides what follows one fetch attempt: a success is applied and ends
    /// the loop, a failure is retried after the fixed interval, and a
    /// refresher that already finished does nothing more.
    pub fn on_fetch_outcome(&mut self, fetch_succeeded: bool) -> (r: RefreshAction)
        ensures
            final(self).spec_finished() == (old(self).spec_finished() || fetch_succeeded),
            old(self).spec_finished() ==> r is AlreadyFinished,
            !old(self).spec_finished() && fetch_succeeded ==> r is ApplyAndFinish,
            !old(self).spec_finished() && !fetch_succeeded ==> r
                == RefreshAction::RetryAfterSeconds(REFRESH_RETRY_SECONDS),
    {
        if self.finished {
            RefreshAction::AlreadyFinished
        } else if fetch_succeeded {
            self.finished = true;
            RefreshAction::ApplyAndFinish
        } else {
            RefreshAction::RetryAfterSeconds(REFRESH_RETRY_SECONDS)
        }
    }
}

/// True when `s` begins with the organization-id prefix convention, i.e.
/// with the four characters of `"org_"`.
pub open spec fn has_org_id_prefix(s: Seq<char>) -> bool {
    s.len() >= 4 && s[0] == 'o' && s[1] == 'r' && s[2] == 'g' && s[3] == '_'
}

fn check_org_id_prefix(s: &String) -> (r: bool)
    ensures
        r == has_org_id_prefix(s@),
{
    let st = s.as_str();
    if st.unicode_len() < 4 {
        return false;
    }
    st.get_char(0) == 'o' && st.get_char(1) == 'r' && st.get_char(2) == 'g' && st.get_char(3)
        == '_'
}

/// What `set_active_resolve` returns for a given snapshot and arguments:
/// either the target session, with its active-organization pointer already
/// moved when an organization id or slug was given, or the error that names
/// the first check that fails.
pub open spec fn spec_set_active(
    snap: SnapshotView,
    session_id: Option<Seq<char>>,
    org_id_or_slug: Option<Seq<char>>,
) -> Result<SessionView, ClerkErrorView> {
    if !snap.loaded {
        Err(ClerkErrorView::NotLoaded)
    } else if session_id is None && org_id_or_slug is None {
        Err(ClerkErrorView::InvalidArguments)
    } else if snap.client is None {
        Err(
            ClerkErrorView::NotFound {
                kind: NotFoundKind::ClientRecord,
                identifier: Seq::empty(),
            },
        )
    } else {
        let base = if session_id is Some {
            find_session(snap.client->0.sessions, session_id->0)
        } else {
            snap.session
        };
        if base is None {
            if session_id is Some {
                Err(
                    ClerkErrorView::NotFound {
                        kind: NotFoundKind::SessionId,
                        identifier: session_id->0,
                    },
                )
            } else {
                Err(
                    ClerkErrorView::NotFound {
                        kind: NotFoundKind::ActiveSession,
                        identifier: Seq::empty(),
                    },
                )
            }
        } else {
            let t = base->0;
            match t.user {
                TriState::Value(u) => match org_id_or_slug {
                    None => Ok(t),
                    Some(o) => if has_org_id_prefix(o) {
                        if find_membership_by_org_id(u.organization_memberships, o) is Some {
                            Ok(SessionView { last_active_organization_id: Some(o), ..t })
                        } else {
                            Err(
                                ClerkErrorView::NotFound {
                                    kind: NotFoundKind::OrganizationId,
                                    identifier: o,
                                },
                            )
                        }
                    } else {
                        match find_membership_by_slug(u.organization_memberships, o) {
                            Some(m) => Ok(
                                SessionView {
                                    last_active_organization_id: Some(m.organization.id),
                                    ..t
                                },
                            ),
                            None => Err(
                                ClerkErrorView::NotFound {
                                    kind: NotFoundKind::OrganizationSlug,
                                    identifier: o,
                                },
                            ),
                        }
                    },
                },
                _ => Err(ClerkErrorView::MissingAssociatedData),
            }
        }
    }
}

/// The state manager: the owner of the snapshot.
pub struct Clerk {
    snapshot: Snapshot,
    listener_count: usize,
}

impl Clerk {
    /// The snapshot the manager currently holds.
    pub closed spec fn snap(&self) -> SnapshotView {
        self.snapshot@
    }

    /// How many listener callbacks have been registered.
    pub closed spec fn listeners(&self) -> int {
        self.listener_count as int
    }

    /// The manager's invariant: the snapshot is well formed.
    pub open spec fn wf(&self) -> bool {
        snapshot_wf(self.snap())
    }

    /// A fresh manager: an empty snapshot, not loaded, no listeners.
    pub fn new() -> (c: Clerk)
        ensures
            c.wf(),
            !c.snap().loaded,
            c.snap().environment is None,
            c.snap().client is None,
            c.snap().session is None,
            c.snap().user is None,
            c.snap().organization is None,
            c.listeners() == 0,
    {
        Clerk {
            snapshot: Snapshot {
                environment: None,
                client: None,
                session: None,
                user: None,
                organization: None,
                loaded: false,
            },
            listener_count: 0,
        }
    }

    /// Whether the first full load has completed.
    pub fn loaded(&self) -> (r: bool)
        ensures
            r == self.snap().loaded,
    {
        self.snapshot.loaded
    }

    /// The current environment, if any.
    pub fn environment(&self) -> (r: Option<Environment>)
        ensures
            r.deep_view() == self.snap().environment,
    {
        clone_opt_environment(&self.snapshot.environment)
    }

    /// The current client record, if any.
    pub fn client(&self) -> (r: Option<Client>)
        ensures
            r.deep_view() == self.snap().client,
    {
        clone_opt_client(&self.snapshot.client)
    }

    /// The active session, if any.
    pub fn session(&self) -> (r: Option<Session>)
        ensures
            r.deep_view() == self.snap().session,
    {
        clone_opt_session(&self.snapshot.session)
    }

    /// The active user, if any.
    pub fn user(&self) -> (r: Option<User>)
        ensures
            r.deep_view() == self.snap().user,
    {
        clone_opt_user(&self.snapshot.user)
    }

    /// The active organization, if any.
    pub fn organization(&self) -> (r: Option<Organization>)
        ensures
            r.deep_view() == self.snap().organization,
    {
        clone_opt_organization(&self.snapshot.organization)
    }

    /// How many listener callbacks have been registered.
    pub fn listener_count(&self) -> (r: usize)
        ensures
            r as int == self.listeners(),
    {
        self.listener_count
    }

    /// Decides what `load` has to do: nothing when the snapshot is already
    /// loaded, the one-time bootstrap otherwise. Loading is idempotent
    /// because a manager whose snapshot is loaded always plans
    /// `AlreadyLoaded`.
    pub fn load_plan(&self) -> (r: LoadPlan)
        ensures
            r is Bootstrap <==> !self.snap().loaded,
    {
        if self.snapshot.loaded {
            LoadPlan::AlreadyLoaded
        } else {
            LoadPlan::Bootstrap
        }
    }

    /// Marks the first full load complete, after both bootstrap procedures
    /// have succeeded; a successful environment bootstrap has always filled
    /// the environment. The flag never goes back to false: no operation of
    /// the manager resets it.
    pub fn complete_load(&mut self)
        requires
            old(self).wf(),
            old(self).snap().environment is Some,
        ensures
            final(self).wf(),
            final(self).snap().loaded,
            final(self).snap().environment == old(self).snap().environment,
            final(self).snap().client == old(self).snap().client,
            final(self).snap().session == old(self).snap().session,
            final(self).snap().user == old(self).snap().user,
            final(self).snap().organization == old(self).snap().organization,
            final(self).listeners() == old(self).listeners(),
    {
        self.snapshot.loaded = true;
    }

    /// Replaces the environment and asks for it to be persisted. Listeners
    /// are not notified: they only observe client, session, user and
    /// organization changes.
    pub fn update_environment(&mut self, environment: Environment) -> (w: StoreWrite)
        requires
            old(self).wf(),
        ensures
            final(self).wf(),
            final(self).snap().environment == Some(environment@),
            final(self).snap().client == old(self).snap().client,
            final(self).snap().session == old(self).snap().session,
            final(self).snap().user == old(self).snap().user,
            final(self).snap().organization == old(self).snap().organization,
            final(self).snap().loaded == old(self).snap().loaded,
            final(self).listeners() == old(self).listeners(),
            w matches StoreWrite::PutEnvironment(e) && e@ == environment@,
    {
        let copy = environment.clone();
        self.snapshot.environment = Some(environment);
        StoreWrite::PutEnvironment(copy)
    }

    /// The single choke point for client updates: stores the client record,
    /// derives the active session, user and organization from it, and asks
    /// for the record to be persisted and for every listener to be called
    /// with the committed values.
    pub fn update_client(&mut self, client: Client) -> (effects: (StoreWrite, Notification))
        ensures
            final(self).wf(),
            final(self).snap().client == Some(client@),
            final(self).snap().session == derived_session(client@),
            final(self).snap().user == derived_user(client@),
            final(self).snap().organization == derived_organization(client@),
            final(self).snap().environment == old(self).snap().environment,
            final(self).snap().loaded == old(self).snap().loaded,
            final(self).listeners() == old(self).listeners(),
            effects.0 matches StoreWrite::PutClient(pc) && pc@ == client@,
            effects.1.client@ == client@,
            effects.1.session.deep_view() == derived_session(client@),
            effects.1.user.deep_view() == derived_user(client@),
            effects.1.organization.deep_view() == derived_organization(client@),
    {
        let (session, user, organization) = derive_accessors(&client);
        let stored = client.clone();
        let notification = Notification {
            client: client.clone(),
            session: clone_opt_session(&session),
            user: clone_opt_user(&user),
            organization: clone_opt_organization(&organization),
        };
        self.snapshot.client = Some(client);
        self.snapshot.session = session;
        self.snapshot.user = user;
        self.snapshot.organization = organization;
        (StoreWrite::PutClient(stored), notification)
    }

    /// Appends a listener slot and replays the current state to it: when a
    /// client record is already present the returned notification must be
    /// delivered to the new listener at once, so that a late subscriber
    /// never misses the current state. Without a client record there is
    /// nothing to replay.
    pub fn add_listener(&mut self) -> (r: Option<Notification>)
        requires
            old(self).listeners() < usize::MAX as int,
        ensures
            final(self).snap() == old(self).snap(),
            final(self).listeners() == old(self).listeners() + 1,
            r is Some <==> final(self).snap().client is Some,
            r matches Some(n) ==> {
                &&& n.client@ == final(self).snap().client->0
                &&& n.session.deep_view() == final(self).snap().session
                &&& n.user.deep_view() == final(self).snap().user
                &&& n.organization.deep_view() == final(self).snap().organization
            },
    {
        self.listener_count = self.listener_count + 1;
        match &self.snapshot.client {
            Some(c) => Some(
                Notification {
                    client: c.clone(),
                    session: clone_opt_session(&self.snapshot.session),
                    user: clone_opt_user(&self.snapshot.user),
                    organization: clone_opt_organization(&self.snapshot.organization),
                },
            ),
            None => None,
        }
    }

    /// Decides what `get_token` has to do. Absence is not an error: there is
    /// no request — and the token is absent — exactly when the snapshot is
    /// not loaded, no session is active, or the active session has no user.
    /// Otherwise the request names the active session and carries the
    /// template when one was given, else the optional organization scope.
    pub fn get_token_request(
        &self,
        organization_id: Option<String>,
        template: Option<String>,
    ) -> (r: Option<TokenRequest>)
        ensures
            r is None <==> (!self.snap().loaded || self.snap().session is None
                || self.snap().user is None),
            r matches Some(req) ==> match req {
                TokenRequest::WithTemplate { session_id, template: t } => {
                    &&& template == Some(t)
                    &&& session_id@ == self.snap().session->0.id
                },
                TokenRequest::Standard { session_id, organization_id: oid } => {
                    &&& template is None
                    &&& oid == organization_id
                    &&& session_id@ == self.snap().session->0.id
                },
            },
    {
        if !self.snapshot.loaded {
            return None;
        }
        let session = match &self.snapshot.session {
            Some(s) => s,
            None => { return None; },
        };
        if self.snapshot.user.is_none() {
            return None;
        }
        let session_id = session.id.clone();
        match template {
            Some(t) => Some(TokenRequest::WithTemplate { session_id, template: t }),
            None => Some(TokenRequest::Standard { session_id, organization_id }),
        }
    }

    /// Decides which gateway call signs out: removing the one named session,
    /// or removing all of the client's sessions while retaining its cookie.
    /// Either call answers with an updated client record that the embedding
    /// feeds back through `update_client`.
    pub fn sign_out_request(session_id: Option<String>) -> (r: SignOutRequest)
        ensures
            session_id matches Some(id) ==> r == SignOutRequest::RemoveSession(id),
            session_id is None ==> r is RemoveAllSessions,
    {
        match session_id {
            Some(id) => SignOutRequest::RemoveSession(id),
            None => SignOutRequest::RemoveAllSessions,
        }
    }

    /// Resolves which session, with which active organization, `set_active`
    /// should commit; `spec_set_active` states the outcome exactly. The
    /// snapshot is not changed: the embedding first touches the target
    /// session at the gateway and only commits on success, so a failed call
    /// leaves the prior state, including the prior active organization,
    /// untouched.
    pub fn set_active_resolve(
        &self,
        session_id: Option<String>,
        organization_id_or_slug: Option<String>,
    ) -> (r: Result<Session, ClerkError>)
        ensures
            match (r, spec_set_active(
                self.snap(),
                session_id.deep_view(),
                organization_id_or_slug.deep_view(),
            )) {
                (Ok(t), Ok(tv)) => t@ == tv,
                (Err(e), Err(ev)) => e@ == ev,
                _ => false,
            },
    {
        if !self.snapshot.loaded {
            return Err(ClerkError::NotLoaded);
        }
        if session_id.is_none() && organization_id_or_slug.is_none() {
            return Err(ClerkError::InvalidArguments);
        }
        let client = match &self.snapshot.client {
            Some(c) => c,
            None => {
                return Err(
                    ClerkError::NotFound {
                        kind: NotFoundKind::ClientRecord,
                        identifier: String::new(),
                    },
                );
            },
        };
        let mut target: Session = match &session_id {
            Some(sid) => match find_session_index(&client.sessions, sid) {
                Some(i) => {
                    proof {
                        lemma_find_session_at(client@.sessions, sid@, i as int);
                    }
                    client.sessions[i].clone()
                },
                None => {
                    proof {
                        lemma_find_session_none(client@.sessions, sid@);
                    }
                    return Err(
                        ClerkError::NotFound {
                            kind: NotFoundKind::SessionId,
                            identifier: sid.clone(),
                        },
                    );
                },
            },
            None => match &self.snapshot.session {
                Some(s) => s.clone(),
                None => {
                    return Err(
                        ClerkError::NotFound {
                            kind: NotFoundKind::ActiveSession,
                            identifier: String::new(),
                        },
                    );
                },
            },
        };
        match &target.user {
            TriState::Value(_) => {},
            _ => {
                return Err(ClerkError::MissingAssociatedData);
            },
        }
        let ghost target_before = target@;
        if let Some(org) = organization_id_or_slug {
            let user = match &target.user {
                TriState::Value(u) => u,
                // Unreachable: the embedded user was checked just above.
                _ => {
                    proof {
                        assert(false);
                    }
                    return Err(ClerkError::MissingAssociatedData);
                },
            };
            if check_org_id_prefix(&org) {
                match find_membership_index_by_org_id(&user.organization_memberships, &org) {
                    Some(k) => {
                        proof {
                            lemma_find_membership_by_org_id_at(
                                user@.organization_memberships,
                                org@,
                                k as int,
                            );
                        }
                        target.last_active_organization_id = Some(org);
                        proof {
                            assert(target@ =~= SessionView {
                                last_active_organization_id: target@.last_active_organization_id,
                                ..target_before
                            });
                        }
                    },
                    None => {
                        proof {
                            lemma_find_membership_by_org_id_none(
                                user@.organization_memberships,
                                org@,
                            );
                        }
                        return Err(
                            ClerkError::NotFound {
                                kind: NotFoundKind::OrganizationId,
                                identifier: org,
                            },
                        );
                    },
                }
            } else {
                match find_membership_index_by_slug(&user.organization_memberships, &org) {
                    Some(k) => {
                        proof {
                            lemma_find_membership_by_slug_at(
                                user@.organization_memberships,
                                org@,
                                k as int,
                            );
                        }
                        let org_id = user.organization_memberships[k].organization.id.clone();
                        target.last_active_organization_id = Some(org_id);
                        proof {
                            assert(target@ =~= SessionView {
                                last_active_organization_id: target@.last_active_organization_id,
                                ..target_before
                            });
                        }
                    },
                    None => {
                        proof {
                            lemma_find_membership_by_slug_none(
                                user@.organization_memberships,
                                org@,
                            );
                        }
                        return Err(
                            ClerkError::NotFound {
                                kind: NotFoundKind::OrganizationSlug,
                                identifier: org,
                            },
                        );
                    },
                }
            }
        }
        Ok(target)
    }

    /// Commits a resolved target session: writes it back over the first
    /// session of the client record carrying its id, points the record's
    /// active-session pointer at it, re-derives the snapshot members from
    /// the updated record, and asks for every listener to be notified. The
    /// impossible cases — no client record, or a target whose id matches no
    /// session — are answered with the matching lookup error and leave the
    /// snapshot untouched.
    pub fn set_active_commit(&mut self, target: Session) -> (r: Result<Notification, ClerkError>)
        requires
            old(self).wf(),
        ensures
            final(self).wf(),
            final(self).listeners() == old(self).listeners(),
            old(self).snap().client is None ==> {
                &&& final(self).snap() == old(self).snap()
                &&& r matches Err(e) && e@ == (ClerkErrorView::NotFound {
                    kind: NotFoundKind::ClientRecord,
                    identifier: Seq::empty(),
                })
            },
            old(self).snap().client matches Some(c) ==> find_session(c.sessions, target@.id)
                is None ==> {
                &&& final(self).snap() == old(self).snap()
                &&& r matches Err(e) && e@ == (ClerkErrorView::NotFound {
                    kind: NotFoundKind::SessionId,
                    identifier: target@.id,
                })
            },
            old(self).snap().client matches Some(c) ==> find_session(c.sessions, target@.id)
                is Some ==> {
                &&& r matches Ok(n)
                &&& final(self).snap().loaded == old(self).snap().loaded
                &&& final(self).snap().environment == old(self).snap().environment
                &&& final(self).snap().client matches Some(nc)
                &&& nc.id == c.id
                &&& nc.last_active_session_id == Some(target@.id)
                &&& exists|i: int| {
                    &&& 0 <= i < c.sessions.len()
                    &&& c.sessions[i].id == target@.id
                    &&& (forall|j: int| 0 <= j < i ==> c.sessions[j].id != target@.id)
                    &&& nc.sessions == c.sessions.update(i, target@)
                }
                &&& final(self).snap().session == Some(target@)
                &&& final(self).snap().user == derived_user(nc)
                &&& final(self).snap().organization == derived_organization(nc)
                &&& n.client@ == nc
                &&& n.session.deep_view() == final(self).snap().session
                &&& n.user.deep_view() == final(self).snap().user
                &&& n.organization.deep_view() == final(self).snap().organization
            },
    {
        let client = match &self.snapshot.client {
            Some(c) => c,
            None => {
                return Err(
                    ClerkError::NotFound {
                        kind: NotFoundKind::ClientRecord,
                        identifier: String::new(),
                    },
                );
            },
        };
        let idx = match find_session_index(&client.sessions, &target.id) {
            Some(i) => {
                proof {
                    lemma_find_session_at(client@.sessions, target@.id, i as int);
                }
                i
            },
            None => {
                proof {
                    lemma_find_session_none(client@.sessions, target@.id);
                }
                return Err(
                    ClerkError::NotFound {
                        kind: NotFoundKind::SessionId,
                        identifier: target.id.clone(),
                    },
                );
            },
        };
        let mut new_sessions: Vec<Session> = Vec::new();
        let mut j: usize = 0;
        while j < client.sessions.len()
            invariant
                j <= client.sessions.len(),
                idx < client.sessions.len(),
                new_sessions@.len() == j,
                forall|k: int| 0 <= k < j ==> #[trigger] new_sessions@[k]@ == (if k == idx as int {
                    target@
                } else {
                    client@.sessions[k]
                }),
            decreases client.sessions.len() - j,
        {
            if j == idx {
                new_sessions.push(target.clone());
            } else {
                new_sessions.push(client.sessions[j].clone());
            }
            j += 1;
        }
        let new_client = Client {
            id: client.id.clone(),
            sessions: new_sessions,
            last_active_session_id: Some(target.id.clone()),
        };
        proof {
            assert(new_client@.sessions =~= client@.sessions.update(idx as int, target@));
            lemma_find_session_at(new_client@.sessions, target@.id, idx as int);
        }
        let (session, user, organization) = derive_accessors(&new_client);
        let notification = Notification {
            client: new_client.clone(),
            session: clone_opt_session(&session),
            user: clone_opt_user(&user),
            organization: clone_opt_organization(&organization),
        };
        self.snapshot.client = Some(new_client);
        self.snapshot.session = session;
        self.snapshot.user = user;
        self.snapshot.organization = organization;
        Ok(notification)
    }
}

} // verus!
