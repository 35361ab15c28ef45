//! Tests of the callback summary's JSON form and of error display.

use papers::error::{display_error, EndpointError, ErrorReport};
use papers::summary::Summary;

#[test]
fn it_serializes_errors_as_expected() {
    let summary = Summary::Error {
        backtrace: "".to_owned(),
        error: "meow".to_owned(),
        s3_folder: "/the/bucket/the/key".to_owned(),
    };
    assert_eq!(
        &summary.to_json(),
        "{\"error\":\"meow\",\"backtrace\":\"\",\"s3_folder\":\"/the/bucket/the/key\"}"
    );
}

#[test]
fn it_serializes_success_as_expected() {
    let summary = Summary::File {
        file: "https://example.com/the_file.pdf".to_owned(),
        s3_folder: "/my/bucket/my/key".to_owned(),
    };
    assert_eq!(
        &summary.to_json(),
        "{\"file\":\"https://example.com/the_file.pdf\",\"s3_folder\":\"/my/bucket/my/key\"}"
    );
}

#[test]
fn summary_json_matches_the_reference_parser() {
    // The library's serializer must agree with serde_json on every field
    // and escape, so the callback body parses back to the same values.
    let summary = Summary::Error {
        error: "line one\nline \"two\" \\ with\ttabs".to_owned(),
        backtrace: "".to_owned(),
        s3_folder: "2019-01-01 00:00:00 UTC".to_owned(),
    };
    let body = summary.to_json();
    let parsed: serde_json::Value = serde_json::from_str(&body).unwrap();
    assert_eq!(
        parsed["error"],
        serde_json::Value::String("line one\nline \"two\" \\ with\ttabs".to_string())
    );
    assert_eq!(parsed["backtrace"], serde_json::Value::String("".to_string()));
    assert_eq!(
        parsed["s3_folder"],
        serde_json::Value::String("2019-01-01 00:00:00 UTC".to_string())
    );
}

#[test]
fn summary_json_escapes_control_characters() {
    let summary = Summary::File {
        file: "a\u{8}b\u{c}c\rd\u{1f}e".to_owned(),
        s3_folder: "p".to_owned(),
    };
    let body = summary.to_json();
    assert_eq!(
        body,
        "{\"file\":\"a\\bb\\fc\\rd\\u001fe\",\"s3_folder\":\"p\"}"
    );
    let parsed: serde_json::Value = serde_json::from_str(&body).unwrap();
    assert_eq!(
        parsed["file"],
        serde_json::Value::String("a\u{8}b\u{c}c\rd\u{1f}e".to_string())
    );
}

#[test]
fn display_error_works() {
    let err = ErrorReport {
        message: "something went wrong".to_string(),
        causes: vec![],
    };

    assert_eq!(display_error(&err), "something went wrong\n");
}

const ERROR_WITH_CAUSES: &str = "Unprocessable Entity (422)
Caused by: error doing things
Caused by: aw, snap
";

#[test]
fn display_error_shows_causes() {
    let complex_err = EndpointError::UnprocessableEntity {
        cause: ErrorReport {
            message: "error doing things".to_string(),
            causes: vec!["aw, snap".to_string()],
        },
    };

    assert_eq!(complex_err.display(), ERROR_WITH_CAUSES);
}

#[test]
fn error_replies_carry_their_status_and_message() {
    let forbidden = EndpointError::Forbidden {
        cause: ErrorReport {
            message: "Missing or invalid Authorization header".to_string(),
            causes: vec![],
        },
    };
    let reply = forbidden.to_response();
    assert_eq!(reply.status, 403);
    // The reply body carries the cause chain alone, without the kind's
    // heading line.
    let parsed: serde_json::Value = serde_json::from_str(&reply.body).unwrap();
    assert_eq!(
        parsed["message"],
        serde_json::Value::String("Missing or invalid Authorization header\n".to_string())
    );

    let unprocessable = EndpointError::UnprocessableEntity {
        cause: ErrorReport {
            message: "error doing things".to_string(),
            causes: vec!["aw, snap".to_string()],
        },
    };
    let reply = unprocessable.to_response();
    assert_eq!(reply.status, 422);
    let parsed: serde_json::Value = serde_json::from_str(&reply.body).unwrap();
    assert_eq!(
        parsed["message"],
        serde_json::Value::String("error doing things\nCaused by: aw, snap\n".to_string())
    );

    let internal = EndpointError::InternalServerError {
        cause: ErrorReport {
            message: "boom".to_string(),
            causes: vec![],
        },
    };
    let reply = internal.to_response();
    assert_eq!(reply.status, 500);
    assert_eq!(reply.body, "");
}
