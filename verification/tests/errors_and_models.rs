//! Error descriptions and the wire-model record types.

use clerk_fapi_rs::errors::ClerkError;
use clerk_fapi_rs::errors::NotFoundKind;
use clerk_fapi_rs::models::stubs_period_verification_period_code::Status;
use clerk_fapi_rs::models::stubs_period_verification_period_code::Strategy;
use clerk_fapi_rs::models::stubs_period_verification_period_code::StubsPeriodVerificationPeriodCode;
use clerk_fapi_rs::models::user_settings_period_social::UserSettingsPeriodSocial;
use clerk_fapi_rs::entities::TriState;

#[test]
fn error_messages_name_the_failure() {
    assert_eq!(ClerkError::NotLoaded.message(), "the client is not loaded");
    assert_eq!(
        ClerkError::InvalidArguments.message(),
        "either a session id or an organization id or slug must be provided"
    );
    assert_eq!(
        ClerkError::NotFound { kind: NotFoundKind::SessionId, identifier: "s9".to_string() }
            .message(),
        "session not found: s9"
    );
    assert_eq!(
        ClerkError::NotFound {
            kind: NotFoundKind::OrganizationId,
            identifier: "org_X".to_string(),
        }
        .message(),
        "organization id not found in the user's memberships: org_X"
    );
    assert_eq!(
        ClerkError::NotFound {
            kind: NotFoundKind::OrganizationSlug,
            identifier: "acme".to_string(),
        }
        .message(),
        "organization slug not found in the user's memberships: acme"
    );
    assert_eq!(
        ClerkError::NotFound { kind: NotFoundKind::ClientRecord, identifier: String::new() }
            .message(),
        "no client record is available"
    );
    assert_eq!(
        ClerkError::NotFound { kind: NotFoundKind::ActiveSession, identifier: String::new() }
            .message(),
        "no active session and no session id provided"
    );
    assert_eq!(ClerkError::MissingAssociatedData.message(), "no user data found in the session");
    assert_eq!(
        ClerkError::SerializationFailure { detail: "bad json".to_string() }.message(),
        "failed to decode a payload: bad json"
    );
    assert_eq!(
        ClerkError::TransportFailure { detail: "timed out".to_string() }.message(),
        "transport failure: timed out"
    );
}

#[test]
fn verification_code_constructor_defaults() {
    let code = StubsPeriodVerificationPeriodCode::new(Status::Verified, Strategy::EmailCode, 1700);
    assert_eq!(code.status, Status::Verified);
    assert_eq!(code.strategy, Strategy::EmailCode);
    assert_eq!(code.attempts, TriState::Unset);
    assert_eq!(code.expire_at, 1700);
    assert_eq!(code.clone(), code);
}

#[test]
fn verification_code_enum_defaults() {
    assert_eq!(Status::default(), Status::Unverified);
    assert_eq!(Strategy::default(), Strategy::EmailCode);
}

#[test]
fn social_settings_constructor_defaults() {
    let social = UserSettingsPeriodSocial::new(true, false, true, "oauth_google".to_string());
    assert!(social.enabled);
    assert!(!social.required);
    assert!(social.authenticatable);
    assert_eq!(social.strategy, "oauth_google");
    assert_eq!(social.block_email_subaddresses, None);
    assert_eq!(social.not_selectable, None);
    assert_eq!(social.deprecated, None);
    assert_eq!(social.clone(), social);
}
