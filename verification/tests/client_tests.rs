use auth0_mgmt_api::{Auth0Error, ManagementClient, RetryConfig};

fn configuration_message(result: Result<ManagementClient, Auth0Error>) -> String {
    match result {
        Err(Auth0Error::Configuration(message)) => message,
        Err(other) => panic!("not a configuration error: {:?}", other),
        Ok(_) => panic!("built"),
    }
}

fn built(result: Result<ManagementClient, Auth0Error>) -> ManagementClient {
    match result {
        Ok(c) => c,
        Err(e) => panic!("Failed to build client: {:?}", e),
    }
}

#[test]
fn test_builder_missing_domain() {
    let result = ManagementClient::builder()
        .client_id("test_client_id".to_string())
        .client_secret("test_client_secret".to_string())
        .build();

    assert!(result.is_err());
    assert_eq!(configuration_message(result), "domain is required");
}

#[test]
fn test_builder_missing_client_id() {
    let result = ManagementClient::builder()
        .domain("test.auth0.com".to_string())
        .client_secret("test_client_secret".to_string())
        .build();

    assert!(result.is_err());
    assert_eq!(configuration_message(result), "client_id is required");
}

#[test]
fn test_builder_missing_client_secret() {
    let result = ManagementClient::builder()
        .domain("test.auth0.com".to_string())
        .client_id("test_client_id".to_string())
        .build();

    assert!(result.is_err());
    assert_eq!(configuration_message(result), "client_secret is required");
}

#[test]
fn test_builder_with_full_url() {
    let client = ManagementClient::builder()
        .domain("http://127.0.0.1:49152".to_string())
        .client_id("test_client_id".to_string())
        .client_secret("test_client_secret".to_string())
        .build();

    assert!(client.is_ok());
    assert_eq!(built(client).base_url(), "http://127.0.0.1:49152/");
}

#[test]
fn missing_fields_are_reported_in_order() {
    assert_eq!(configuration_message(ManagementClient::builder().build()), "domain is required");
    assert_eq!(
        configuration_message(ManagementClient::builder().client_secret("s".to_string()).build()),
        "domain is required"
    );
    assert_eq!(
        configuration_message(ManagementClient::builder().domain("d".to_string()).build()),
        "client_id is required"
    );
    assert_eq!(
        configuration_message(ManagementClient::builder().domain("[".to_string()).build()),
        "client_id is required"
    );
}

#[test]
fn bare_domain_becomes_an_https_url() {
    let client = built(
        ManagementClient::builder()
            .domain("test.auth0.com".to_string())
            .client_id("id".to_string())
            .client_secret("secret".to_string())
            .build(),
    );
    assert_eq!(client.base_url(), "https://test.auth0.com/");
    let request = client.token_request().unwrap();
    assert_eq!(request.url, "https://test.auth0.com/oauth/token");
    assert_eq!(request.audience, "https://test.auth0.com/api/v2/");
}

#[test]
fn full_urls_are_kept() {
    for (domain, base) in [
        ("https://tenant.eu.auth0.com", "https://tenant.eu.auth0.com/"),
        ("https://tenant.eu.auth0.com/", "https://tenant.eu.auth0.com/"),
        ("http://localhost:3000", "http://localhost:3000/"),
        ("https://EXAMPLE.com:443/a/../b/", "https://example.com/b/"),
    ] {
        let client = built(
            ManagementClient::builder()
                .domain(domain.to_string())
                .client_id("id".to_string())
                .client_secret("secret".to_string())
                .build(),
        );
        assert_eq!(client.base_url(), base);
        assert_eq!(client.token_request().unwrap().audience, format!("{}api/v2/", base));
    }
}

#[test]
fn other_schemes_are_taken_as_domains() {
    let client = built(
        ManagementClient::builder()
            .domain("HTTPS://example.com".to_string())
            .client_id("id".to_string())
            .client_secret("secret".to_string())
            .build(),
    );
    assert_eq!(client.base_url(), "https://https//example.com/");
}

#[test]
fn invalid_domain_is_a_url_error() {
    let result = ManagementClient::builder()
        .domain("exa mple.com".to_string())
        .client_id("id".to_string())
        .client_secret("secret".to_string())
        .build();
    match result {
        Err(Auth0Error::Url(e)) => {
            assert_eq!(e, url::Url::parse("https://exa mple.com/").unwrap_err())
        }
        Err(other) => panic!("not a URL error: {:?}", other),
        Ok(_) => panic!("built"),
    }

    let result = ManagementClient::builder()
        .domain("https://".to_string())
        .client_id("id".to_string())
        .client_secret("secret".to_string())
        .build();
    match result {
        Err(Auth0Error::Url(e)) => assert_eq!(e, url::ParseError::EmptyHost),
        Err(other) => panic!("not a URL error: {:?}", other),
        Ok(_) => panic!("built"),
    }
}

#[test]
fn token_request_carries_the_credentials() {
    let client = built(
        ManagementClient::builder()
            .domain("https://tenant.example.com".to_string())
            .client_id("test_client_id".to_string())
            .client_secret("test_client_secret".to_string())
            .audience("https://api.example.com/".to_string())
            .build(),
    );
    let request = client.token_request().unwrap();
    assert_eq!(request.url, "https://tenant.example.com/oauth/token");
    assert_eq!(request.grant_type, "client_credentials");
    assert_eq!(request.client_id, "test_client_id");
    assert_eq!(request.client_secret, "test_client_secret");
    assert_eq!(request.audience, "https://api.example.com/");
}

#[test]
fn later_settings_replace_earlier_ones() {
    let client = built(
        ManagementClient::builder()
            .domain("first.example.com".to_string())
            .domain("second.example.com".to_string())
            .client_id("a".to_string())
            .client_id("b".to_string())
            .client_secret("x".to_string())
            .client_secret("y".to_string())
            .build(),
    );
    assert_eq!(client.base_url(), "https://second.example.com/");
    let request = client.token_request().unwrap();
    assert_eq!(request.client_id, "b");
    assert_eq!(request.client_secret, "y");
}

#[test]
fn retry_policy_defaults_and_can_be_set() {
    let default = built(
        ManagementClient::builder()
            .domain("t.example.com".to_string())
            .client_id("id".to_string())
            .client_secret("secret".to_string())
            .build(),
    );
    assert_eq!(default.retry_config(), RetryConfig::default());

    let policy = RetryConfig {
        max_retries: 2,
        initial_delay_ms: 10,
        max_delay_ms: 100,
        multiplier_permille: 2000,
    };
    let custom = built(
        ManagementClient::builder()
            .domain("t.example.com".to_string())
            .client_id("id".to_string())
            .client_secret("secret".to_string())
            .retry_config(policy)
            .build(),
    );
    assert_eq!(custom.retry_config(), policy);
}
