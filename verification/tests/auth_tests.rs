//! Tests of bearer-token authorization, and the auth matrix of the
//! endpoints.

use papers::auth::extract_bearer;
use papers::config::Config;
use papers::endpoints::{authorize, submit};
use papers::error::{EndpointError, ErrorReport};
use papers::json::JsonValue;
use papers::papers::DocumentSpec;

fn config_with_auth() -> Config {
    Config::for_tests().with_auth("secret-string".to_string())
}

fn config_empty_auth() -> Config {
    let config = Config::for_tests();
    assert!(config.auth.is_none());
    config
}

/// An unparsable request body surfaces as this error, and as a 422.
fn invalid_body_error() -> EndpointError {
    EndpointError::UnprocessableEntity {
        cause: ErrorReport {
            message: "missing field `callback_url`".to_string(),
            causes: Vec::new(),
        },
    }
}

#[test]
fn auth_token_extraction() {
    assert_eq!("my-secret", extract_bearer("Bearer my-secret").unwrap());
    assert_eq!("my-secret", extract_bearer("bearer my-secret").unwrap());
    assert_eq!("my-secret", extract_bearer("BEARER my-secret").unwrap());
    assert_eq!("my-secret", extract_bearer("bEaReR my-secret").unwrap());
}

#[test]
fn extract_bearer_rejects_other_shapes() {
    assert_eq!(extract_bearer("Basic my-secret"), None);
    assert_eq!(extract_bearer("Bearer"), None);
    assert_eq!(extract_bearer("my-secret"), None);
    assert_eq!(extract_bearer(""), None);
}

#[test]
fn test_submit_ignore_auth_when_not_configured() {
    let config = config_empty_auth();

    // Without a configured secret every request is allowed, with or
    // without a header; the invalid body is still rejected with a 422.
    assert!(authorize(&config, None).is_ok());
    let header = "Bearer anything".to_string();
    assert!(authorize(&config, Some(&header)).is_ok());

    let response = invalid_body_error().to_response();
    assert_eq!(response.status, 422);
}

#[test]
fn test_submit_fails_when_auth_is_expected_but_missing() {
    let config = config_with_auth();

    let result = authorize(&config, None);
    let response = result.unwrap_err().to_response();
    assert_eq!(response.status, 403);
}

#[test]
fn test_submit_fails_if_auth_header_does_not_match_env_var() {
    let config = config_with_auth();

    let header = "Bearer other-string".to_string();
    let result = authorize(&config, Some(&header));
    let response = result.unwrap_err().to_response();
    assert_eq!(response.status, 403);
}

#[test]
fn test_submit_succeeds_if_auth_header_matches_env_var() {
    let config = config_with_auth();

    let header = "Bearer secret-string".to_string();
    assert!(authorize(&config, Some(&header)).is_ok());

    // Authorization succeeded; the invalid body is rejected with a 422.
    let response = invalid_body_error().to_response();
    assert_eq!(response.status, 422);
}

#[test]
fn test_preview_fails_if_auth_header_does_not_match_env_var() {
    let config = config_with_auth();

    let header = "Bearer other-string".to_string();
    let result = authorize(&config, Some(&header));
    let response = result.unwrap_err().to_response();
    assert_eq!(response.status, 403);
}

#[test]
fn test_preview_succeeds_if_auth_header_matches_env_var() {
    let config = config_with_auth();

    let header = "Bearer secret-string".to_string();
    assert!(authorize(&config, Some(&header)).is_ok());

    let response = invalid_body_error().to_response();
    assert_eq!(response.status, 422);
}

#[test]
fn authorized_valid_submissions_are_accepted() {
    let config = config_with_auth();
    let header = "Bearer secret-string".to_string();
    assert!(authorize(&config, Some(&header)).is_ok());

    let spec = DocumentSpec {
        assets_urls: vec![],
        callback_url: "http://127.0.0.1/callback".to_string(),
        output_filename: "out.pdf".to_string(),
        template_url: "http://127.0.0.1/template".to_string(),
        variables: JsonValue::Object(vec![]),
        no_escape_tex: false,
    };
    let reply = submit(&spec, &config).unwrap();
    assert_eq!(reply.status, 200);
    assert_eq!(reply.body, "");
}
