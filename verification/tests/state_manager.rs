//! Loading, tokens, sign-out, listeners and the background refresher.

use clerk_fapi_rs::clerk::BackgroundRefresher;
use clerk_fapi_rs::clerk::Clerk;
use clerk_fapi_rs::clerk::LoadPlan;
use clerk_fapi_rs::clerk::RefreshAction;
use clerk_fapi_rs::clerk::SignOutRequest;
use clerk_fapi_rs::clerk::TokenRequest;
use clerk_fapi_rs::clerk::REFRESH_RETRY_SECONDS;
use clerk_fapi_rs::effects::StoreWrite;
use clerk_fapi_rs::entities::Client;
use clerk_fapi_rs::entities::Environment;
use clerk_fapi_rs::entities::Session;
use clerk_fapi_rs::entities::TriState;
use clerk_fapi_rs::entities::User;

fn plain_user(id: &str) -> User {
    User {
        id: id.to_string(),
        first_name: None,
        last_name: None,
        organization_memberships: vec![],
    }
}

fn plain_session(id: &str, user: TriState<User>) -> Session {
    Session {
        id: id.to_string(),
        status: "active".to_string(),
        user,
        last_active_organization_id: None,
    }
}

fn client_with_active_session(user: TriState<User>) -> Client {
    Client {
        id: "c1".to_string(),
        sessions: vec![plain_session("s1", user)],
        last_active_session_id: Some("s1".to_string()),
    }
}

fn loaded_clerk(user: TriState<User>) -> Clerk {
    let mut clerk = Clerk::new();
    clerk.update_environment(Environment { raw: "{}".to_string() });
    clerk.update_client(client_with_active_session(user));
    clerk.complete_load();
    clerk
}

#[test]
fn load_is_idempotent() {
    let mut clerk = Clerk::new();
    assert!(!clerk.loaded());
    assert_eq!(clerk.load_plan(), LoadPlan::Bootstrap);
    let write = clerk.update_environment(Environment { raw: "{}".to_string() });
    assert_eq!(write.key(), "environment");
    clerk.complete_load();
    assert!(clerk.loaded());
    assert_eq!(clerk.load_plan(), LoadPlan::AlreadyLoaded);
    // A second load finds the plan unchanged: the bootstrap ran once.
    assert_eq!(clerk.load_plan(), LoadPlan::AlreadyLoaded);
}

#[test]
fn loaded_flag_survives_later_updates() {
    let mut clerk = loaded_clerk(TriState::Value(plain_user("u1")));
    clerk.update_client(client_with_active_session(TriState::Unset));
    clerk.update_environment(Environment { raw: "{\"rev\":2}".to_string() });
    assert!(clerk.loaded());
}

#[test]
fn environment_update_persists_and_keeps_derived_state() {
    let mut clerk = loaded_clerk(TriState::Value(plain_user("u1")));
    let write = clerk.update_environment(Environment { raw: "{\"rev\":2}".to_string() });
    match write {
        StoreWrite::PutEnvironment(e) => assert_eq!(e.raw, "{\"rev\":2}"),
        StoreWrite::PutClient(_) => panic!("the environment update must persist the environment"),
    }
    assert_eq!(clerk.environment().unwrap().raw, "{\"rev\":2}");
    assert_eq!(clerk.session().unwrap().id, "s1");
    assert_eq!(clerk.user().unwrap().id, "u1");
}

#[test]
fn token_absent_before_load() {
    let clerk = Clerk::new();
    assert!(clerk.get_token_request(None, None).is_none());
}

#[test]
fn token_absent_without_session() {
    let mut clerk = Clerk::new();
    clerk.update_environment(Environment { raw: "{}".to_string() });
    clerk.complete_load();
    assert!(clerk.get_token_request(None, None).is_none());
}

#[test]
fn token_absent_without_user() {
    let clerk = loaded_clerk(TriState::Unset);
    assert!(clerk.get_token_request(None, None).is_none());
}

#[test]
fn token_requested_for_active_session() {
    let clerk = loaded_clerk(TriState::Value(plain_user("u1")));
    match clerk.get_token_request(Some("org_A".to_string()), None) {
        Some(TokenRequest::Standard { session_id, organization_id }) => {
            assert_eq!(session_id, "s1");
            assert_eq!(organization_id.as_deref(), Some("org_A"));
        },
        other => panic!("expected a standard token request, got {:?}", other),
    }
}

#[test]
fn token_request_uses_template_when_given() {
    let clerk = loaded_clerk(TriState::Value(plain_user("u1")));
    match clerk.get_token_request(None, Some("mobile".to_string())) {
        Some(TokenRequest::WithTemplate { session_id, template }) => {
            assert_eq!(session_id, "s1");
            assert_eq!(template, "mobile");
        },
        other => panic!("expected a template token request, got {:?}", other),
    }
}

#[test]
fn sign_out_targets_one_session_or_all() {
    assert_eq!(
        Clerk::sign_out_request(Some("s1".to_string())),
        SignOutRequest::RemoveSession("s1".to_string())
    );
    assert_eq!(Clerk::sign_out_request(None), SignOutRequest::RemoveAllSessions);
}

#[test]
fn listener_replays_current_state_once() {
    let mut clerk = loaded_clerk(TriState::Value(plain_user("u1")));
    assert_eq!(clerk.listener_count(), 0);
    let replay = clerk.add_listener().expect("a loaded client must be replayed");
    assert_eq!(clerk.listener_count(), 1);
    assert_eq!(replay.client.id, "c1");
    assert_eq!(replay.session.unwrap().id, "s1");
    assert_eq!(replay.user.unwrap().id, "u1");
    assert!(replay.organization.is_none());
    // The replay happens only at registration; a later update carries the
    // new state to the listeners through its own notification.
    let (_, notification) = clerk.update_client(client_with_active_session(TriState::Unset));
    assert!(notification.user.is_none());
}

#[test]
fn listener_without_client_gets_no_replay() {
    let mut clerk = Clerk::new();
    assert!(clerk.add_listener().is_none());
    assert_eq!(clerk.listener_count(), 1);
}

#[test]
fn refresher_retries_until_success() {
    let mut refresher = BackgroundRefresher::new();
    assert_eq!(
        refresher.on_fetch_outcome(false),
        RefreshAction::RetryAfterSeconds(REFRESH_RETRY_SECONDS)
    );
    assert_eq!(refresher.on_fetch_outcome(false), RefreshAction::RetryAfterSeconds(900));
    assert_eq!(refresher.on_fetch_outcome(true), RefreshAction::ApplyAndFinish);
    assert_eq!(refresher.on_fetch_outcome(true), RefreshAction::AlreadyFinished);
    assert_eq!(refresher.on_fetch_outcome(false), RefreshAction::AlreadyFinished);
}
