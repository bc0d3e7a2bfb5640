//! Endpoint paths and form-urlencoded percent encoding.

use clerk_fapi_rs::apis::urlencode;
use clerk_fapi_rs::endpoints::ClerkFapiDynamicDeleteEndpoint;
use clerk_fapi_rs::endpoints::ClerkFapiEndpoint;
use clerk_fapi_rs::endpoints::ClerkFapiDynamicGetEndpoint;
use clerk_fapi_rs::endpoints::ClerkFapiDynamicPatchEndpoint;
use clerk_fapi_rs::endpoints::ClerkFapiDynamicPostEndpoint;
use clerk_fapi_rs::endpoints::ClerkFapiDynamicPutEndpoint;
use clerk_fapi_rs::endpoints::ClerkFapiGetEndpoint;
use clerk_fapi_rs::endpoints::ClerkFapiPostEndpoint;

#[test]
fn get_endpoint_paths() {
    assert_eq!(ClerkFapiGetEndpoint::ListOrganizations.as_str(), "/organizations");
    assert_eq!(ClerkFapiGetEndpoint::GetActiveSession.as_str(), "/session");
    assert_eq!(ClerkFapiGetEndpoint::GetClientToken.as_str(), "/client");
}

#[test]
fn post_endpoint_paths() {
    assert_eq!(ClerkFapiPostEndpoint::SignIn.as_str(), "/sign_in");
}

#[test]
fn dynamic_get_endpoint_paths() {
    assert_eq!(
        ClerkFapiDynamicGetEndpoint::GetOrganizationMembership.as_str(),
        "/organizations/{organization_id}/memberships/{user_id}"
    );
    assert_eq!(ClerkFapiDynamicGetEndpoint::GetSession.as_str(), "/sessions/{session_id}");
    assert_eq!(
        ClerkFapiDynamicGetEndpoint::GetUserOrganizationInvitations.as_str(),
        "/users/{user_id}/organization_invitations"
    );
}

#[test]
fn dynamic_post_endpoint_paths() {
    assert_eq!(ClerkFapiDynamicPostEndpoint::SignOut.as_str(), "/sessions/{session_id}/end");
    assert_eq!(
        ClerkFapiDynamicPostEndpoint::AcceptOrganizationInvitation.as_str(),
        "/organizations/{organization_id}/invitations/{invitation_id}/accept"
    );
}

#[test]
fn dynamic_delete_put_patch_endpoint_paths() {
    assert_eq!(
        ClerkFapiDynamicDeleteEndpoint::RejectOrganizationInvitation.as_str(),
        "/organizations/{organization_id}/invitations/{invitation_id}"
    );
    assert_eq!(
        ClerkFapiDynamicPutEndpoint::UpdateOrganization.as_str(),
        "/organizations/{organization_id}"
    );
    assert_eq!(ClerkFapiDynamicPatchEndpoint::UpdateUser.as_str(), "/users/{user_id}");
}

#[test]
fn endpoint_groups_carry_their_paths() {
    let endpoint = ClerkFapiEndpoint::Get(ClerkFapiGetEndpoint::GetClientToken);
    match endpoint {
        ClerkFapiEndpoint::Get(get) => assert_eq!(get.as_str(), "/client"),
        other => panic!("expected a static GET endpoint, got {:?}", other),
    }
}

#[test]
fn urlencode_keeps_unreserved_bytes() {
    assert_eq!(urlencode("abcXYZ019*-._"), "abcXYZ019*-._");
    assert_eq!(urlencode(""), "");
}

#[test]
fn urlencode_escapes_space_and_reserved_bytes() {
    assert_eq!(urlencode("hello world"), "hello+world");
    assert_eq!(urlencode("a&b=c"), "a%26b%3Dc");
    assert_eq!(urlencode("100%"), "100%25");
}

#[test]
fn urlencode_escapes_multibyte_characters_bytewise() {
    assert_eq!(urlencode("é"), "%C3%A9");
}
