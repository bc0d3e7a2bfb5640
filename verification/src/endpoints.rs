//! The endpoints of the remote frontend API, grouped by HTTP method, and the
//! path (or path template) each one stands for.

use vstd::prelude::*;

verus! {

#[derive(Debug)]
pub enum ClerkFapiEndpoint {
    Get(ClerkFapiGetEndpoint),
    Post(ClerkFapiPostEndpoint),
    DynamicGet(ClerkFapiDynamicGetEndpoint),
    DynamicPost(ClerkFapiDynamicPostEndpoint),
    DynamicDelete(ClerkFapiDynamicDeleteEndpoint),
    DynamicPut(ClerkFapiDynamicPutEndpoint),
    DynamicPatch(ClerkFapiDynamicPatchEndpoint),
}

#[derive(Debug)]
pub enum ClerkFapiDynamicGetEndpoint {
    GetOrganization,
    GetOrganizationMembership,
    GetOrganizationInvitation,
    GetOrganizationSuggestions,
    GetSession,
    GetUser,
    GetUserOrganizationInvitations,
    GetUserOrganizationMemberships,
}

#[derive(Debug)]
pub enum ClerkFapiDynamicPostEndpoint {
    AcceptOrganizationInvitation,
    CreateOrganization,
    CreateOrganizationInvitation,
    CreateOrganizationMembership,
    SignOut,
    SignUp,
    VerifyEmail,
    VerifyPhoneNumber,
}

#[derive(Debug)]
pub enum ClerkFapiDynamicDeleteEndpoint {
    DeleteOrganization,
    DeleteOrganizationMembership,
    RejectOrganizationInvitation,
}

#[derive(Debug)]
pub enum ClerkFapiDynamicPutEndpoint {
    UpdateOrganization,
}

#[derive(Debug)]
pub enum ClerkFapiDynamicPatchEndpoint {
    UpdateOrganizationMembership,
    UpdateOrganizationMetadata,
    UpdateUser,
}

#[derive(Debug)]
pub enum ClerkFapiGetEndpoint {
    ListOrganizations,
    GetActiveSession,
    GetClientToken,
}

#[derive(Debug)]
pub enum ClerkFapiPostEndpoint {
    SignIn,
}

impl ClerkFapiGetEndpoint {
    pub fn as_str(&self) -> (r: &str)
        ensures
            r@ == match *self {
                ClerkFapiGetEndpoint::ListOrganizations => "/organizations"@,
                ClerkFapiGetEndpoint::GetActiveSession => "/session"@,
                ClerkFapiGetEndpoint::GetClientToken => "/client"@,
            },
    {
        match self {
            ClerkFapiGetEndpoint::ListOrganizations => "/organizations",
            ClerkFapiGetEndpoint::GetActiveSession => "/session",
            ClerkFapiGetEndpoint::GetClientToken => "/client",
        }
    }
}

impl ClerkFapiPostEndpoint {
    pub fn as_str(&self) -> (r: &str)
        ensures
            r@ == match *self {
                ClerkFapiPostEndpoint::SignIn => "/sign_in"@,
            },
    {
        match self {
            ClerkFapiPostEndpoint::SignIn => "/sign_in",
        }
    }
}

impl ClerkFapiDynamicGetEndpoint {
    pub fn as_str(&self) -> (r: &str)
        ensures
            r@ == match *self {
                ClerkFapiDynamicGetEndpoint::GetOrganization => "/organizations/{organization_id}"@,
                ClerkFapiDynamicGetEndpoint::GetOrganizationMembership => "/organizations/{organization_id}/memberships/{user_id}"@,
                ClerkFapiDynamicGetEndpoint::GetOrganizationInvitation => "/organizations/{organization_id}/invitations/{invitation_id}"@,
                ClerkFapiDynamicGetEndpoint::GetOrganizationSuggestions => "/organizations/{organization_id}/suggestions"@,
                ClerkFapiDynamicGetEndpoint::GetSession => "/sessions/{session_id}"@,
                ClerkFapiDynamicGetEndpoint::GetUser => "/users/{user_id}"@,
                ClerkFapiDynamicGetEndpoint::GetUserOrganizationInvitations => "/users/{user_id}/organization_invitations"@,
                ClerkFapiDynamicGetEndpoint::GetUserOrganizationMemberships => "/users/{user_id}/organization_memberships"@,
            },
    {
        match self {
            ClerkFapiDynamicGetEndpoint::GetOrganization => "/organizations/{organization_id}",
            ClerkFapiDynamicGetEndpoint::GetOrganizationMembership => "/organizations/{organization_id}/memberships/{user_id}",
            ClerkFapiDynamicGetEndpoint::GetOrganizationInvitation => "/organizations/{organization_id}/invitations/{invitation_id}",
            ClerkFapiDynamicGetEndpoint::GetOrganizationSuggestions => "/organizations/{organization_id}/suggestions",
            ClerkFapiDynamicGetEndpoint::GetSession => "/sessions/{session_id}",
            ClerkFapiDynamicGetEndpoint::GetUser => "/users/{user_id}",
            ClerkFapiDynamicGetEndpoint::GetUserOrganizationInvitations => "/users/{user_id}/organization_invitations",
            ClerkFapiDynamicGetEndpoint::GetUserOrganizationMemberships => "/users/{user_id}/organization_memberships",
        }
    }
}

impl ClerkFapiDynamicPostEndpoint {
    pub fn as_str(&self) -> (r: &str)
        ensures
            r@ == match *self {
                ClerkFapiDynamicPostEndpoint::AcceptOrganizationInvitation => "/organizations/{organization_id}/invitations/{invitation_id}/accept"@,
                ClerkFapiDynamicPostEndpoint::CreateOrganization => "/organizations"@,
                ClerkFapiDynamicPostEndpoint::CreateOrganizationInvitation => "/organizations/{organization_id}/invitations"@,
                ClerkFapiDynamicPostEndpoint::CreateOrganizationMembership => "/organizations/{organization_id}/memberships"@,
                ClerkFapiDynamicPostEndpoint::SignOut => "/sessions/{session_id}/end"@,
                ClerkFapiDynamicPostEndpoint::SignUp => "/sign_up"@,
                ClerkFapiDynamicPostEndpoint::VerifyEmail => "/verify_email"@,
                ClerkFapiDynamicPostEndpoint::VerifyPhoneNumber => "/verify_phone_number"@,
            },
    {
        match self {
            ClerkFapiDynamicPostEndpoint::AcceptOrganizationInvitation => "/organizations/{organization_id}/invitations/{invitation_id}/accept",
            ClerkFapiDynamicPostEndpoint::CreateOrganization => "/organizations",
            ClerkFapiDynamicPostEndpoint::CreateOrganizationInvitation => "/organizations/{organization_id}/invitations",
            ClerkFapiDynamicPostEndpoint::CreateOrganizationMembership => "/organizations/{organization_id}/memberships",
            ClerkFapiDynamicPostEndpoint::SignOut => "/sessions/{session_id}/end",
            ClerkFapiDynamicPostEndpoint::SignUp => "/sign_up",
            ClerkFapiDynamicPostEndpoint::VerifyEmail => "/verify_email",
            ClerkFapiDynamicPostEndpoint::VerifyPhoneNumber => "/verify_phone_number",
        }
    }
}

impl ClerkFapiDynamicDeleteEndpoint {
    pub fn as_str(&self) -> (r: &str)
        ensures
            r@ == match *self {
                ClerkFapiDynamicDeleteEndpoint::DeleteOrganization => "/organizations/{organization_id}"@,
                ClerkFapiDynamicDeleteEndpoint::DeleteOrganizationMembership => "/organizations/{organization_id}/memberships/{user_id}"@,
                ClerkFapiDynamicDeleteEndpoint::RejectOrganizationInvitation => "/organizations/{organization_id}/invitations/{invitation_id}"@,
            },
    {
        match self {
            ClerkFapiDynamicDeleteEndpoint::DeleteOrganization => "/organizations/{organization_id}",
            ClerkFapiDynamicDeleteEndpoint::DeleteOrganizationMembership => "/organizations/{organization_id}/memberships/{user_id}",
            ClerkFapiDynamicDeleteEndpoint::RejectOrganizationInvitation => "/organizations/{organization_id}/invitations/{invitation_id}",
        }
    }
}

impl ClerkFapiDynamicPutEndpoint {
    pub fn as_str(&self) -> (r: &str)
        ensures
            r@ == match *self {
                ClerkFapiDynamicPutEndpoint::UpdateOrganization => "/organizations/{organization_id}"@,
            },
    {
        match self {
            ClerkFapiDynamicPutEndpoint::UpdateOrganization => "/organizations/{organization_id}",
        }
    }
}

impl ClerkFapiDynamicPatchEndpoint {
    pub fn as_str(&self) -> (r: &str)
        ensures
            r@ == match *self {
                ClerkFapiDynamicPatchEndpoint::UpdateOrganizationMembership => "/organizations/{organization_id}/memberships/{user_id}"@,
                ClerkFapiDynamicPatchEndpoint::UpdateOrganizationMetadata => "/organizations/{organization_id}/metadata"@,
                ClerkFapiDynamicPatchEndpoint::UpdateUser => "/users/{user_id}"@,
            },
    {
        match self {
            ClerkFapiDynamicPatchEndpoint::UpdateOrganizationMembership => "/organizations/{organization_id}/memberships/{user_id}",
            ClerkFapiDynamicPatchEndpoint::UpdateOrganizationMetadata => "/organizations/{organization_id}/metadata",
            ClerkFapiDynamicPatchEndpoint::UpdateUser => "/users/{user_id}",
        }
    }
}

} // verus!
