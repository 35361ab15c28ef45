//! Tests of spec validation, endpoint decisions, and configuration.

use papers::config::Config;
use papers::endpoints::{merge, submit};
use papers::error::EndpointError;
use papers::json::JsonValue;
use papers::papers::{default_output_filename, return_false, DocumentSpec, MergeSpec};

fn document_spec(assets: Vec<&str>) -> DocumentSpec {
    DocumentSpec {
        assets_urls: assets.into_iter().map(|a| a.to_string()).collect(),
        callback_url: "http://127.0.0.1:8733/callback".to_string(),
        output_filename: "out.pdf".to_string(),
        template_url: "http://127.0.0.1:8733/template".to_string(),
        variables: JsonValue::Object(vec![(
            "who".to_string(),
            JsonValue::String("peter".to_string()),
        )]),
        no_escape_tex: false,
    }
}

#[test]
fn merge_spec_validate_empty_asset_urls() {
    let wrong_spec = MergeSpec {
        assets_urls: vec![],
        callback_url: "https://example.com/callback".to_string(),
        output_filename: default_output_filename(&papers::workspace::now_rfc3339()),
    };

    if let Err(EndpointError::UnprocessableEntity { cause }) = wrong_spec.validate() {
        assert_eq!(cause.message, "Cannot merge with an empty asset_urls array.");
        return;
    }

    panic!("did not validate that asset_urls is not empty");
}

#[test]
fn test_assets_exceed_max_length() {
    let config = Config::for_tests().with_max_assets_per_document(1);

    let spec = document_spec(vec![
        "http://127.0.0.1:8733/assets/logo.png",
        "http://127.0.0.1/8733/dead-end/",
    ]);

    let result = submit(&spec, &config);
    let response = result.unwrap_err().to_response();
    assert_eq!(response.status, 422);
}

#[test]
fn submit_accepts_assets_within_the_cap() {
    let config = Config::for_tests().with_max_assets_per_document(2);
    let spec = document_spec(vec![
        "http://127.0.0.1:8733/assets/logo.png",
        "http://127.0.0.1:8733/assets/icon.png",
    ]);
    let reply = submit(&spec, &config).unwrap();
    assert_eq!(reply.status, 200);
    assert_eq!(reply.body, "");
}

#[test]
fn document_validate_names_the_cap_in_its_error() {
    let config = Config::for_tests().with_max_assets_per_document(1);
    let spec = document_spec(vec!["http://a/1", "http://a/2"]);
    match spec.validate(&config) {
        Err(EndpointError::UnprocessableEntity { cause }) => {
            assert_eq!(cause.message, "Asset URLs length exceeds the maximum (1).");
        }
        _ => panic!("expected the spec to be rejected"),
    }
}

#[test]
fn merge_accepts_non_empty_specs() {
    let spec = MergeSpec {
        assets_urls: vec!["http://127.0.0.1/a.pdf".to_string()],
        callback_url: "http://127.0.0.1/callback".to_string(),
        output_filename: "out.pdf".to_string(),
    };
    let reply = merge(&spec).unwrap();
    assert_eq!(reply.status, 200);
    assert_eq!(reply.body, "");
}

#[test]
fn variables_escape_unless_turned_off() {
    let mut spec = document_spec(vec![]);
    spec.variables = JsonValue::String("70%".to_string());
    assert_eq!(spec.variables(), JsonValue::String("70\\%".to_string()));
    spec.no_escape_tex = true;
    assert_eq!(spec.variables(), JsonValue::String("70%".to_string()));
}

#[test]
fn return_false_is_false() {
    assert!(!return_false());
}

#[test]
fn default_output_filename_is_a_timestamped_pdf() {
    assert_eq!(
        default_output_filename("2019-01-01T00:00:00+00:00"),
        "out_2019-01-01T00:00:00+00:00.pdf"
    );
    let name = default_output_filename(&papers::workspace::now_rfc3339());
    assert!(name.starts_with("out_"));
    assert!(name.ends_with(".pdf"));
}

#[test]
fn document_spec_it_validates_uris() {
    // A URL that opens in the query has no authority and no path.
    assert!(!papers::uri::valid_url("?/"));
    assert!(papers::uri::valid_url("bac"));
    assert!(papers::uri::valid_url("http://127.0.0.1/template"));
    assert!(!papers::uri::valid_url(""));
    assert!(!papers::uri::valid_url("two words"));
}

#[test]
fn merge_spec_it_validates_uris() {
    assert!(!papers::uri::valid_url("?/"));
    assert!(papers::uri::valid_url("example.com/pdf"));
}

#[test]
fn test_aws_region_localstack() {
    let choice = Config::region_from(
        Some("my-endpoint".to_string()),
        Some("eu-west-1".to_string()),
    )
    .unwrap();
    assert_eq!(choice.0, "localstack");
    assert_eq!(choice.1, Some("my-endpoint".to_string()));
}

#[test]
fn test_aws_region_env() {
    let choice = Config::region_from(None, Some("us-east-1".to_string())).unwrap();
    assert_eq!(choice.0, "us-east-1");
    assert_eq!(choice.1, None);
    assert_eq!(Config::region_from(None, None), None);
}

#[test]
fn config_defaults_and_overrides() {
    let config = Config::for_tests();
    assert_eq!(config.max_asset_size, 10_000_000);
    assert_eq!(config.max_assets_per_document, 20);
    assert_eq!(config.s3.bucket, "walrus");
    assert_eq!(config.s3.expiration_time, 3600);

    assert_eq!(Config::max_asset_size_from(None), 10_000_000);
    assert_eq!(Config::max_asset_size_from(Some(&"1M".to_string())), 1_000_000);
    assert_eq!(Config::max_asset_size_from(Some(&"garbage".to_string())), 10_000_000);

    assert_eq!(Config::max_assets_per_document_from(None), 20);
    assert_eq!(Config::max_assets_per_document_from(Some(&"3".to_string())), 3);
    assert_eq!(Config::max_assets_per_document_from(Some(&"x".to_string())), 20);

    assert_eq!(Config::expiration_from(None), Some(86_400));
    assert_eq!(Config::expiration_from(Some(&"600".to_string())), Some(600));
    assert_eq!(Config::expiration_from(Some(&"soon".to_string())), None);
}
