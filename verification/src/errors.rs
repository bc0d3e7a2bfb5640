//! The error taxonomy of the state manager.

use vstd::prelude::*;
use vstd::string::StringExecFns;

verus! {

/// What kind of record a failed lookup was after.
#[derive(Debug, Clone, Copy, PartialEq, Eq)]
pub enum NotFoundKind {
    /// The snapshot holds no client record at all.
    ClientRecord,
    /// A session id was given and matches no session of the client.
    SessionId,
    /// No session id was given and no session is active.
    ActiveSession,
    /// An organization id matches none of the user's memberships.
    OrganizationId,
    /// An organization slug matches none of the user's memberships.
    OrganizationSlug,
}

/// A failure surfaced to the caller of the state manager.
#[derive(Debug, PartialEq, Eq)]
pub enum ClerkError {
    /// The operation requires a completed load and none has happened.
    NotLoaded,
    /// A required combination of optional arguments was not supplied.
    InvalidArguments,
    /// A referenced record does not exist in the expected collection.
    NotFound { kind: NotFoundKind, identifier: String },
    /// A session lacks its expected embedded user.
    MissingAssociatedData,
    /// A cached or remote payload could not be decoded.
    SerializationFailure { detail: String },
    /// A remote gateway or store call failed at the transport layer.
    TransportFailure { detail: String },
}

#[verifier::ext_equal]
pub enum ClerkErrorView {
    NotLoaded,
    InvalidArguments,
    NotFound { kind: NotFoundKind, identifier: Seq<char> },
    MissingAssociatedData,
    SerializationFailure { detail: Seq<char> },
    TransportFailure { detail: Seq<char> },
}

impl View for ClerkError {
    type V = ClerkErrorView;

    open spec fn view(&self) -> ClerkErrorView {
        match self {
            ClerkError::NotLoaded => ClerkErrorView::NotLoaded,
            ClerkError::InvalidArguments => ClerkErrorView::InvalidArguments,
            ClerkError::NotFound { kind, identifier } => ClerkErrorView::NotFound {
                kind: *kind,
                identifier: identifier@,
            },
            ClerkError::MissingAssociatedData => ClerkErrorView::MissingAssociatedData,
            ClerkError::SerializationFailure { detail } => ClerkErrorView::SerializationFailure {
                detail: detail@,
            },
            ClerkError::TransportFailure { detail } => ClerkErrorView::TransportFailure {
                detail: detail@,
            },
        }
    }
}

impl DeepView for ClerkError {
    type V = ClerkErrorView;

    open spec fn deep_view(&self) -> ClerkErrorView {
        self.view()
    }
}

/// The description `message` returns for an error view.
pub open spec fn spec_message(e: ClerkErrorView) -> Seq<char> {
    match e {
        ClerkErrorView::NotLoaded => "the client is not loaded"@,
        ClerkErrorView::InvalidArguments => "either a session id or an organization id or slug must be provided"@,
        ClerkErrorView::NotFound { kind, identifier } => match kind {
            NotFoundKind::ClientRecord => "no client record is available"@,
            NotFoundKind::SessionId => "session not found: "@ + identifier,
            NotFoundKind::ActiveSession => "no active session and no session id provided"@,
            NotFoundKind::OrganizationId => "organization id not found in the user's memberships: "@
                + identifier,
            NotFoundKind::OrganizationSlug => "organization slug not found in the user's memberships: "@
                + identifier,
        },
        ClerkErrorView::MissingAssociatedData => "no user data found in the session"@,
        ClerkErrorView::SerializationFailure { detail } => "failed to decode a payload: "@ + detail,
        ClerkErrorView::TransportFailure { detail } => "transport failure: "@ + detail,
    }
}

impl ClerkError {
    /// A human-readable description of the error.
    pub fn message(&self) -> (r: String)
        ensures
            r@ == spec_message(self@),
    {
        match self {
            ClerkError::NotLoaded => "the client is not loaded".to_owned(),
            ClerkError::InvalidArguments => "either a session id or an organization id or slug must be provided".to_owned(),
            ClerkError::NotFound { kind, identifier } => match kind {
                NotFoundKind::ClientRecord => "no client record is available".to_owned(),
                NotFoundKind::SessionId => "session not found: ".to_owned().concat(
                    identifier.as_str(),
                ),
                NotFoundKind::ActiveSession => "no active session and no session id provided".to_owned(),
                NotFoundKind::OrganizationId => "organization id not found in the user's memberships: ".to_owned().concat(identifier.as_str()),
                NotFoundKind::OrganizationSlug => "organization slug not found in the user's memberships: ".to_owned().concat(identifier.as_str()),
            },
            ClerkError::MissingAssociatedData => "no user data found in the session".to_owned(),
            ClerkError::SerializationFailure { detail } => "failed to decode a payload: ".to_owned().concat(detail.as_str()),
            ClerkError::TransportFailure { detail } => "transport failure: ".to_owned().concat(
                detail.as_str(),
            ),
        }
    }
}

} // verus!
