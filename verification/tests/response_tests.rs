use auth0_mgmt_api::endpoint::{authorize, Endpoint, Method};
use auth0_mgmt_api::error::Auth0ApiError;
use auth0_mgmt_api::response::{is_success, parse_retry_after, HttpReply};
use auth0_mgmt_api::{Auth0Error, ManagementClient};

fn json_error() -> serde_json::Error {
    serde_json::from_str::<serde_json::Value>("{").unwrap_err()
}

fn body(message: Option<&str>, error: Option<&str>, description: Option<&str>, code: Option<&str>) -> Auth0ApiError {
    Auth0ApiError {
        message: message.map(String::from),
        error: error.map(String::from),
        description: description.map(String::from),
        error_code: code.map(String::from),
    }
}

fn failed(status: u16, retry_after: Option<&str>, error: Option<Auth0ApiError>) -> HttpReply<Vec<String>> {
    HttpReply { status, retry_after: retry_after.map(String::from), payload: Err(json_error()), error }
}

fn api_parts(e: Auth0Error) -> (u16, String, Option<String>) {
    match e {
        Auth0Error::Api { status, message, error_code } => (status, message, error_code),
        other => panic!("not an API error: {:?}", other),
    }
}

fn assert_rate_limited(result: Result<Vec<String>, Auth0Error>, seconds: Option<u64>) {
    match result {
        Err(Auth0Error::RateLimited { retry_after }) => assert_eq!(retry_after, seconds),
        other => panic!("not a rate limit: {:?}", other),
    }
}

#[test]
fn test_list_clients_rate_limited() {
    let reply = failed(
        429,
        None,
        Some(body(Some("Rate limit exceeded"), Some("Too Many Requests"), None, None)),
    );
    let result = ManagementClient::handle_response(reply);
    assert!(result.is_err());
    assert_rate_limited(result, None);
}

#[test]
fn test_list_users_rate_limited() {
    assert_rate_limited(ManagementClient::handle_response(failed(429, None, None)), None);
}

#[test]
fn test_list_connections_rate_limited() {
    assert_rate_limited(ManagementClient::handle_response(failed(429, Some("30"), None)), Some(30));
}

#[test]
fn rate_limit_reads_the_header() {
    assert_rate_limited(ManagementClient::handle_response(failed(429, Some("0"), None)), Some(0));
    assert_rate_limited(ManagementClient::handle_response(failed(429, Some("+12"), None)), Some(12));
    assert_rate_limited(ManagementClient::handle_response(failed(429, Some("soon"), None)), None);
    assert_rate_limited(ManagementClient::handle_response(failed(429, Some(" 5"), None)), None);
    assert_rate_limited(ManagementClient::handle_response(failed(429, Some(""), None)), None);
    assert_rate_limited(
        ManagementClient::handle_response(failed(429, Some("18446744073709551616"), None)),
        None,
    );
}

#[test]
fn parse_retry_after_values() {
    assert_eq!(parse_retry_after(&None), None);
    assert_eq!(parse_retry_after(&Some("1".to_string())), Some(1));
    assert_eq!(parse_retry_after(&Some("120".to_string())), Some(120));
    assert_eq!(parse_retry_after(&Some("1.5".to_string())), None);
}

#[test]
fn test_get_client_not_found() {
    let reply = failed(
        404,
        None,
        Some(body(Some("The client does not exist."), Some("Not Found"), None, None)),
    );
    let result = ManagementClient::handle_response(reply);
    assert!(result.is_err());
    assert_eq!(
        api_parts(result.unwrap_err()),
        (404, "The client does not exist.".to_string(), None)
    );
}

#[test]
fn test_list_clients_unauthorized() {
    let reply = failed(401, None, Some(body(Some("Invalid token"), Some("Unauthorized"), None, None)));
    let result = ManagementClient::handle_response(reply);
    assert_eq!(api_parts(result.unwrap_err()), (401, "Invalid token".to_string(), None));
}

#[test]
fn test_create_user_conflict() {
    let reply = failed(
        409,
        None,
        Some(body(Some("The user already exists."), Some("Conflict"), None, Some("auth0_idp_error"))),
    );
    assert_eq!(
        api_parts(ManagementClient::handle_response(reply).unwrap_err()),
        (409, "The user already exists.".to_string(), Some("auth0_idp_error".to_string()))
    );
}

#[test]
fn api_error_prefers_the_description() {
    let e = ManagementClient::handle_error(
        400,
        None,
        Some(body(Some("short"), None, Some("the long story"), Some("invalid_body"))),
    );
    assert_eq!(api_parts(e), (400, "the long story".to_string(), Some("invalid_body".to_string())));

    let e = ManagementClient::handle_error(
        400,
        None,
        Some(body(None, Some("invalid_request"), Some("the long story"), None)),
    );
    assert_eq!(api_parts(e), (400, "the long story".to_string(), None));
}

#[test]
fn api_error_falls_back_to_error_field() {
    let e = ManagementClient::handle_error(403, None, Some(body(None, Some("Forbidden"), None, None)));
    assert_eq!(api_parts(e), (403, "Forbidden".to_string(), None));
}

#[test]
fn unparsable_error_body_is_unknown_error() {
    let e = ManagementClient::handle_error(500, None, None);
    assert_eq!(api_parts(e), (500, "Unknown error".to_string(), None));

    let e = ManagementClient::handle_error(
        502,
        Some("10".to_string()),
        Some(body(None, None, Some("only a description"), Some("code"))),
    );
    assert_eq!(api_parts(e), (502, "Unknown error".to_string(), None));
}

#[test]
fn error_statuses_other_than_429_are_api_errors() {
    for status in [100u16, 199, 300, 304, 400, 428, 430, 500, 503, 599] {
        let e = ManagementClient::handle_error(status, Some("5".to_string()), None);
        assert_eq!(api_parts(e).0, status);
    }
}

#[test]
fn success_hands_on_the_value() {
    for status in [200u16, 201, 204, 299] {
        let reply = HttpReply {
            status,
            retry_after: None,
            payload: Ok(vec!["a".to_string(), "b".to_string()]),
            error: None,
        };
        assert_eq!(
            ManagementClient::handle_response(reply).unwrap(),
            vec!["a".to_string(), "b".to_string()]
        );
    }
}

#[test]
fn malformed_success_body_is_a_decoding_error() {
    let reply: HttpReply<Vec<String>> =
        HttpReply { status: 200, retry_after: None, payload: Err(json_error()), error: None };
    match ManagementClient::handle_response(reply) {
        Err(Auth0Error::Json(e)) => assert!(e.is_eof()),
        other => panic!("not a decoding error: {:?}", other),
    }
}

#[test]
fn value_of_an_error_status_is_not_looked_at() {
    let reply = HttpReply {
        status: 404,
        retry_after: None,
        payload: Ok(vec!["stale".to_string()]),
        error: None,
    };
    assert_eq!(
        api_parts(ManagementClient::handle_response(reply).unwrap_err()),
        (404, "Unknown error".to_string(), None)
    );
}

#[test]
fn test_delete_client() {
    let reply: HttpReply<()> =
        HttpReply { status: 204, retry_after: None, payload: Err(json_error()), error: None };
    assert!(ManagementClient::handle_empty_response(reply).is_ok());
}

#[test]
fn test_delete_client_not_found() {
    let reply: HttpReply<()> = HttpReply {
        status: 404,
        retry_after: None,
        payload: Err(json_error()),
        error: Some(body(Some("The client does not exist."), Some("Not Found"), None, None)),
    };
    let result = ManagementClient::handle_empty_response(reply);
    assert!(result.is_err());
    assert_eq!(
        api_parts(result.unwrap_err()),
        (404, "The client does not exist.".to_string(), None)
    );
}

#[test]
fn delete_can_be_rate_limited() {
    let reply: HttpReply<()> = HttpReply {
        status: 429,
        retry_after: Some("2".to_string()),
        payload: Ok(()),
        error: None,
    };
    match ManagementClient::handle_empty_response(reply) {
        Err(Auth0Error::RateLimited { retry_after }) => assert_eq!(retry_after, Some(2)),
        other => panic!("not a rate limit: {:?}", other),
    }
}

#[test]
fn success_class_is_200_to_299() {
    assert!(!is_success(0));
    assert!(!is_success(199));
    assert!(is_success(200));
    assert!(is_success(250));
    assert!(is_success(299));
    assert!(!is_success(300));
    assert!(!is_success(429));
    assert!(!is_success(u16::MAX));
}

#[test]
fn authorize_adds_the_bearer_token() {
    let endpoint = Endpoint { method: Method::Get, url: "https://t.example/api/v2/users".to_string() };
    let request = authorize(endpoint, Ok("test_token".to_string())).unwrap();
    assert_eq!(request.method, Method::Get);
    assert_eq!(request.url, "https://t.example/api/v2/users");
    assert_eq!(request.authorization, "Bearer test_token");
    assert!(!request.json_body);
}

#[test]
fn authorize_marks_the_methods_with_a_body() {
    for (method, body) in [
        (Method::Get, false),
        (Method::Post, true),
        (Method::Patch, true),
        (Method::Delete, false),
    ] {
        assert_eq!(method.has_body(), body);
        let endpoint = Endpoint { method, url: "https://t.example/".to_string() };
        let request = authorize(endpoint, Ok(String::new())).unwrap();
        assert_eq!(request.json_body, body);
        assert_eq!(request.authorization, "Bearer ");
        assert_eq!(request.method, method);
    }
}

#[test]
fn authorize_hands_on_the_token_error() {
    let endpoint = Endpoint { method: Method::Post, url: "https://t.example/".to_string() };
    let failure = Auth0Error::Authentication { message: "access_denied".to_string() };
    match authorize(endpoint, Err(failure)) {
        Err(Auth0Error::Authentication { message }) => assert_eq!(message, "access_denied"),
        other => panic!("not the token error: {:?}", other),
    }
    let endpoint = Endpoint { method: Method::Get, url: "https://t.example/".to_string() };
    match authorize(endpoint, Err(Auth0Error::RateLimited { retry_after: Some(3) })) {
        Err(Auth0Error::RateLimited { retry_after }) => assert_eq!(retry_after, Some(3)),
        other => panic!("not the token error: {:?}", other),
    }
}
