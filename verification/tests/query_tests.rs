use auth0_mgmt_api::types::common::PaginationParams;
use auth0_mgmt_api::{
    AppType, ClientId, ConnectionId, ConnectionStrategy, GrantType, OrganizationRequireBehavior,
    OrganizationUsage, Page, PerPage, SearchEngine, SortDirection, SortSpec, TokenAuthMethod,
    UserId,
};

#[test]
fn test_sort_spec() {
    let sort = SortSpec::descending("created_at".to_string());
    assert_eq!(sort.to_api_string(), "created_at:-1");

    let sort = SortSpec::ascending("name".to_string());
    assert_eq!(sort.to_api_string(), "name:1");
}

#[test]
fn test_per_page_validation() {
    assert!(PerPage::new(0).is_err());
    assert!(PerPage::new(1).is_ok());
    assert!(PerPage::new(100).is_ok());
}

#[test]
fn test_page_default() {
    assert_eq!(Page::default().number(), 0);
}

#[test]
fn test_search_engine() {
    assert_eq!(SearchEngine::V1.as_str(), "v1");
    assert_eq!(SearchEngine::V3.as_str(), "v3");
    assert_eq!(SearchEngine::default(), SearchEngine::V3);
}

#[test]
fn per_page_refusal_names_the_rule() {
    assert_eq!(PerPage::new(0), Err("per_page must be greater than 0"));
    assert_eq!(PerPage::new(25).unwrap().count(), 25);
    assert_eq!(PerPage::new(u32::MAX).unwrap().count(), u32::MAX);
}

#[test]
fn page_keeps_its_number() {
    assert_eq!(Page::new(0).number(), 0);
    assert_eq!(Page::new(7).number(), 7);
    assert_eq!(Page::new(u32::MAX).number(), u32::MAX);
    assert!(Page::new(1) < Page::new(2));
}

#[test]
fn sort_direction_texts() {
    assert_eq!(SortDirection::Ascending.as_str(), "1");
    assert_eq!(SortDirection::Descending.as_str(), "-1");
}

#[test]
fn sort_spec_getters() {
    let sort = SortSpec::new("email".to_string(), SortDirection::Descending);
    assert_eq!(sort.field(), "email");
    assert_eq!(sort.direction(), SortDirection::Descending);
    assert_eq!(SortSpec::ascending("a".to_string()).direction(), SortDirection::Ascending);
    assert_eq!(SortSpec::new(String::new(), SortDirection::Ascending).to_api_string(), ":1");
}

#[test]
fn ids_keep_their_text() {
    let user = UserId::new("auth0|123".to_string());
    assert_eq!(user.as_str(), "auth0|123");
    assert_eq!(user.into_inner(), "auth0|123");

    let client = ClientId::new("client/with/slashes".to_string());
    assert_eq!(client.as_str(), "client/with/slashes");
    assert_eq!(client.clone().into_inner(), "client/with/slashes");
    assert_eq!(client, ClientId::new("client/with/slashes".to_string()));

    let connection = ConnectionId::new("con_1".to_string());
    assert_eq!(connection.as_str(), "con_1");
    assert_eq!(connection.into_inner(), "con_1");
}

#[test]
fn enum_names_on_the_wire() {
    assert_eq!(AppType::RegularWeb.as_str(), "regular_web");
    assert_eq!(AppType::Spa.as_str(), "spa");
    assert_eq!(AppType::Native.as_str(), "native");
    assert_eq!(AppType::NonInteractive.as_str(), "non_interactive");
    assert_eq!(GrantType::ClientCredentials.as_str(), "client_credentials");
    assert_eq!(
        GrantType::DeviceCode.as_str(),
        "urn:ietf:params:oauth:grant-type:device_code"
    );
    assert_eq!(
        GrantType::SamlBearer.as_str(),
        "urn:ietf:params:oauth:grant-type:saml2-bearer"
    );
    assert_eq!(ConnectionStrategy::Auth0Database.as_str(), "auth0");
    assert_eq!(ConnectionStrategy::GoogleOAuth2.as_str(), "google-oauth2");
    assert_eq!(ConnectionStrategy::AzureAd.as_str(), "waad");
    assert_eq!(ConnectionStrategy::PingIdentity.as_str(), "ping7");
    assert_eq!(TokenAuthMethod::NoAuthentication.as_str(), "none");
    assert_eq!(TokenAuthMethod::PrivateKeyJwt.as_str(), "private_key_jwt");
    assert_eq!(OrganizationUsage::Require.as_str(), "require");
    assert_eq!(OrganizationRequireBehavior::PreLoginPrompt.as_str(), "pre_login_prompt");
}

#[test]
fn pagination_pairs_skip_what_is_not_set() {
    let none = PaginationParams::default();
    assert!(none.to_pairs().is_empty());

    let all = PaginationParams { page: Some(2), per_page: Some(50), include_totals: Some(false) };
    assert_eq!(
        all.to_pairs(),
        vec![
            ("page".to_string(), "2".to_string()),
            ("per_page".to_string(), "50".to_string()),
            ("include_totals".to_string(), "false".to_string()),
        ]
    );

    let one = PaginationParams { page: None, per_page: None, include_totals: Some(true) };
    assert_eq!(one.to_pairs(), vec![("include_totals".to_string(), "true".to_string())]);
}
