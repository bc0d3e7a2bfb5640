//! The derivation of session, user and organization from a client record.

use clerk_fapi_rs::clerk::Clerk;
use clerk_fapi_rs::effects::StoreWrite;
use clerk_fapi_rs::entities::Client;
use clerk_fapi_rs::entities::Organization;
use clerk_fapi_rs::entities::OrganizationMembership;
use clerk_fapi_rs::entities::Session;
use clerk_fapi_rs::entities::TriState;
use clerk_fapi_rs::entities::User;

fn org(id: &str, name: &str, slug: &str) -> Organization {
    Organization { id: id.to_string(), name: name.to_string(), slug: slug.to_string() }
}

fn user_with_memberships(id: &str, memberships: Vec<OrganizationMembership>) -> User {
    User {
        id: id.to_string(),
        first_name: None,
        last_name: None,
        organization_memberships: memberships,
    }
}

fn session_with_user(id: &str, user: TriState<User>, last_org: Option<&str>) -> Session {
    Session {
        id: id.to_string(),
        status: "active".to_string(),
        user,
        last_active_organization_id: last_org.map(|s| s.to_string()),
    }
}

#[test]
fn matching_pointer_derives_session_and_user() {
    let mut clerk = Clerk::new();
    let user = user_with_memberships("u1", vec![]);
    let client = Client {
        id: "c1".to_string(),
        sessions: vec![
            session_with_user("s0", TriState::Unset, None),
            session_with_user("s1", TriState::Value(user), None),
        ],
        last_active_session_id: Some("s1".to_string()),
    };
    clerk.update_client(client);
    assert_eq!(clerk.session().unwrap().id, "s1");
    assert_eq!(clerk.user().unwrap().id, "u1");
    assert!(clerk.organization().is_none());
}

#[test]
fn unmatched_pointer_clears_session_user_organization() {
    let mut clerk = Clerk::new();
    let user = user_with_memberships("u1", vec![]);
    let client = Client {
        id: "c1".to_string(),
        sessions: vec![session_with_user("s1", TriState::Value(user), None)],
        last_active_session_id: Some("s9".to_string()),
    };
    clerk.update_client(client);
    assert!(clerk.session().is_none());
    assert!(clerk.user().is_none());
    assert!(clerk.organization().is_none());
}

#[test]
fn null_pointer_clears_session_user_organization() {
    let mut clerk = Clerk::new();
    let user = user_with_memberships("u1", vec![]);
    let client = Client {
        id: "c1".to_string(),
        sessions: vec![session_with_user("s1", TriState::Value(user), None)],
        last_active_session_id: None,
    };
    clerk.update_client(client);
    assert!(clerk.session().is_none());
    assert!(clerk.user().is_none());
    assert!(clerk.organization().is_none());
}

#[test]
fn organization_resolved_from_memberships() {
    let mut clerk = Clerk::new();
    let memberships = vec![
        OrganizationMembership { organization: org("org_A", "Org A", "org-a"), role: "admin".to_string() },
        OrganizationMembership { organization: org("org_B", "Org B", "org-b"), role: "member".to_string() },
    ];
    let user = user_with_memberships("u1", memberships);
    let client = Client {
        id: "c1".to_string(),
        sessions: vec![session_with_user("s1", TriState::Value(user), Some("org_B"))],
        last_active_session_id: Some("s1".to_string()),
    };
    clerk.update_client(client);
    let active = clerk.organization().unwrap();
    assert_eq!(active.id, "org_B");
    assert_eq!(active.name, "Org B");
}

#[test]
fn organization_absent_when_pointer_matches_no_membership() {
    let mut clerk = Clerk::new();
    let memberships = vec![
        OrganizationMembership { organization: org("org_A", "Org A", "org-a"), role: "admin".to_string() },
        OrganizationMembership { organization: org("org_B", "Org B", "org-b"), role: "member".to_string() },
    ];
    let user = user_with_memberships("u1", memberships);
    let client = Client {
        id: "c1".to_string(),
        sessions: vec![session_with_user("s1", TriState::Value(user), Some("org_C"))],
        last_active_session_id: Some("s1".to_string()),
    };
    clerk.update_client(client);
    assert_eq!(clerk.user().unwrap().id, "u1");
    assert!(clerk.organization().is_none());
}

#[test]
fn session_without_user_leaves_user_unset() {
    let mut clerk = Clerk::new();
    let client = Client {
        id: "c1".to_string(),
        sessions: vec![session_with_user("s1", TriState::ExplicitNull, Some("org_A"))],
        last_active_session_id: Some("s1".to_string()),
    };
    clerk.update_client(client);
    assert_eq!(clerk.session().unwrap().id, "s1");
    assert!(clerk.user().is_none());
    assert!(clerk.organization().is_none());
}

#[test]
fn end_to_end_apply_client() {
    let mut clerk = Clerk::new();
    let user = user_with_memberships("u1", vec![]);
    let client = Client {
        id: "c1".to_string(),
        sessions: vec![session_with_user("s1", TriState::Value(user), None)],
        last_active_session_id: Some("s1".to_string()),
    };
    let (write, notification) = clerk.update_client(client);
    assert_eq!(write.key(), "client");
    match write {
        StoreWrite::PutClient(stored) => assert_eq!(stored.id, "c1"),
        StoreWrite::PutEnvironment(_) => panic!("the client update must persist the client"),
    }
    assert_eq!(clerk.session().unwrap().id, "s1");
    assert_eq!(clerk.user().unwrap().id, "u1");
    assert!(clerk.organization().is_none());
    assert_eq!(notification.client.id, "c1");
    assert_eq!(notification.session.unwrap().id, "s1");
    assert_eq!(notification.user.unwrap().id, "u1");
    assert!(notification.organization.is_none());
}

#[test]
fn empty_session_list_derives_nothing() {
    let mut clerk = Clerk::new();
    let client = Client {
        id: "c1".to_string(),
        sessions: vec![],
        last_active_session_id: Some("s1".to_string()),
    };
    clerk.update_client(client);
    assert!(clerk.session().is_none());
    assert!(clerk.user().is_none());
    assert!(clerk.organization().is_none());
}

#[test]
fn first_matching_membership_wins() {
    let mut clerk = Clerk::new();
    let memberships = vec![
        OrganizationMembership { organization: org("org_A", "First", "first"), role: "admin".to_string() },
        OrganizationMembership { organization: org("org_A", "Second", "second"), role: "member".to_string() },
    ];
    let user = user_with_memberships("u1", memberships);
    let client = Client {
        id: "c1".to_string(),
        sessions: vec![session_with_user("s1", TriState::Value(user), Some("org_A"))],
        last_active_session_id: Some("s1".to_string()),
    };
    clerk.update_client(client);
    assert_eq!(clerk.organization().unwrap().name, "First");
}

#[test]
fn first_matching_session_wins() {
    let mut clerk = Clerk::new();
    let first = session_with_user("s1", TriState::Value(user_with_memberships("u1", vec![])), None);
    let second = session_with_user("s1", TriState::Value(user_with_memberships("u2", vec![])), None);
    let client = Client {
        id: "c1".to_string(),
        sessions: vec![first, second],
        last_active_session_id: Some("s1".to_string()),
    };
    clerk.update_client(client);
    assert_eq!(clerk.user().unwrap().id, "u1");
}
