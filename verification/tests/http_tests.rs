//! Tests of the HTTP plumbing decisions: filename extraction, the
//! `Content-Disposition` filename, redirects, and the download size cap.

use papers::endpoints::health_check;
use papers::http_rules::{
    determine_get_result, filename_of_content_disposition, DownloadMeter, GetResult,
};
use papers::uri::extract_filename_from_uri;

#[test]
fn test_extract_filename_from_uri_works() {
    let assert_extracted = |input: &'static str, expected_output: Option<&'static str>| {
        assert_eq!(
            extract_filename_from_uri(input),
            expected_output.map(|o| o.to_string())
        );
    };

    assert_extracted("/logo.png", Some("logo.png"));
    assert_extracted("/assets/", None);
    assert_extracted("/assets/icon", Some("icon"));
    assert_extracted("/", None);
    assert_extracted("http://www.store2be.com", None);
}

#[test]
fn http_test_extract_filename_from_uri_works() {
    let assert_extracted = |input: &'static str, expected_output: Option<&'static str>| {
        assert_eq!(
            extract_filename_from_uri(input),
            expected_output.map(|o| o.to_string())
        );
    };

    assert_extracted("/logo.png", Some("logo.png"));
    assert_extracted("/assets/", None);
    assert_extracted("/assets/icon", Some("icon"));
    assert_extracted("/", None);
    assert_extracted("http://www.store2be.com", None);
}

#[test]
fn test_extract_file_name_from_uri_works() {
    let assert_extracted = |input: &'static str, expected_output: Option<&'static str>| {
        assert_eq!(
            extract_filename_from_uri(input),
            expected_output.map(|o| o.to_string())
        );
    };

    assert_extracted("/logo.png", Some("logo.png"));
    assert_extracted("/assets/", None);
    assert_extracted("/assets/icon", Some("icon"));
    assert_extracted("/", None);
    assert_extracted("http://www.store2be.com", None);
}

#[test]
fn extract_filename_handles_full_urls() {
    assert_eq!(
        extract_filename_from_uri("http://127.0.0.1:8738/assets/logo.png"),
        Some("logo.png".to_string())
    );
    assert_eq!(extract_filename_from_uri("https://example.com/"), None);
    assert_eq!(extract_filename_from_uri(""), None);
}

#[test]
fn extract_filename_ignores_query_and_fragment() {
    assert_eq!(extract_filename_from_uri("/a?/"), Some("a".to_string()));
    assert_eq!(
        extract_filename_from_uri("http://h/x.png?X-Amz-Expires=3600"),
        Some("x.png".to_string())
    );
    assert_eq!(
        extract_filename_from_uri("/assets/icon#frag"),
        Some("icon".to_string())
    );
    assert_eq!(extract_filename_from_uri("/assets/?q=1"), None);
    assert_eq!(extract_filename_from_uri("http://h?q/z"), None);
}

#[test]
fn test_filename_prefers_content_disposition() {
    let header = "attachment; filename=\"this_should_be_the_filename.png\"";
    assert_eq!(
        filename_of_content_disposition(header),
        Some("this_should_be_the_filename.png".to_string())
    );
}

#[test]
fn test_filename_works_with_content_disposition_inline() {
    let header = "inline; filename=\"this_should_be_the_filename.png\"";
    assert_eq!(
        filename_of_content_disposition(header),
        Some("this_should_be_the_filename.png".to_string())
    );
}

// S3 returns Content-Disposition without disposition (just filename)
#[test]
fn test_content_disposition_works_without_disposition() {
    let header = "; filename=\"this_should_be_the_filename.png\"";
    assert_eq!(
        filename_of_content_disposition(header),
        Some("this_should_be_the_filename.png".to_string())
    );
    let bare = "filename=unquoted.pdf";
    assert_eq!(
        filename_of_content_disposition(bare),
        Some("unquoted.pdf".to_string())
    );
}

#[test]
fn content_disposition_without_filename_yields_none() {
    assert_eq!(filename_of_content_disposition("attachment"), None);
    assert_eq!(filename_of_content_disposition(""), None);
    assert_eq!(
        filename_of_content_disposition("attachment; name=field"),
        None
    );
}

#[test]
fn test_get_body_bytes_with_limit_is_enforced() {
    let mut meter = DownloadMeter::new(2000);
    let mut failed = false;
    for _ in 0..12 {
        if meter.add_chunk(250).is_err() {
            failed = true;
            break;
        }
    }
    assert!(failed);
}

#[test]
fn test_get_body_bytes_with_limit_is_not_excessively_zealous() {
    let mut meter = DownloadMeter::new(3000);
    for _ in 0..12 {
        assert!(meter.add_chunk(250).is_ok());
    }
}

#[test]
fn redirects_follow_location() {
    for status in [301u16, 302, 307, 308] {
        let location = "http://example.com/next".to_string();
        match determine_get_result(status, Some(&location)) {
            Ok(GetResult::Redirect(l)) => assert_eq!(l, "http://example.com/next"),
            _ => panic!("expected a redirect"),
        }
    }
}

#[test]
fn redirect_without_location_is_an_error() {
    assert!(determine_get_result(302, None).is_err());
}

#[test]
fn ordinary_statuses_are_final() {
    for status in [200u16, 204, 404, 500] {
        let location = "http://example.com/next".to_string();
        assert!(matches!(
            determine_get_result(status, Some(&location)),
            Ok(GetResult::Done)
        ));
    }
}

#[test]
fn http_test_health_check() {
    let reply = health_check();
    assert_eq!(reply.status, 200);
    assert_eq!(reply.body, "");
    let again = health_check();
    assert_eq!(again.status, 200);
}
