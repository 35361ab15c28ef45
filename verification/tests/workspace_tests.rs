//! Tests of the workspace's path and key decisions, and of the helpers
//! the job machines build their subprocess calls from.

use papers::merger::{needs_conversion, pdf_target, pdfunite_args};
use papers::renderer::tex_filename;
use papers::text::whole_output;
use papers::workspace::{choose_filename, fresh_uuid, prefixed_filename, Workspace};

#[test]
fn workspace_keys_live_under_its_prefix() {
    let workspace = Workspace::new("/tmp/job".to_string(), "2019-01-01 00:00:00 UTC".to_string());
    assert_eq!(workspace.s3_dir_name, "2019-01-01 00:00:00 UTC");
    assert_eq!(
        workspace.artifact_key("out.pdf"),
        "2019-01-01 00:00:00 UTC/out.pdf"
    );
    assert_eq!(workspace.tar_key(), "2019-01-01 00:00:00 UTC/workspace.tar");
    assert_eq!(workspace.dest_path("logo.png"), "/tmp/job/logo.png");
}

#[test]
fn workspace_prefixes_come_from_the_clock() {
    let first = papers::workspace::now_timestamp_string();
    assert!(!first.is_empty());
    let workspace = Workspace::new("/tmp/job".to_string(), first.clone());
    assert_eq!(workspace.s3_dir_name, first);
}

#[test]
fn filenames_prefer_the_header_then_the_url() {
    assert_eq!(
        choose_filename(Some("from-header.png".to_string()), "http://h/from-url.png").unwrap(),
        "from-header.png"
    );
    assert_eq!(
        choose_filename(None, "http://h/from-url.png").unwrap(),
        "from-url.png"
    );
    let err = choose_filename(None, "http://h/").unwrap_err();
    assert_eq!(err.status_code(), 422);
}

#[test]
fn prefixes_join_with_a_dash() {
    let prefix = "1234".to_string();
    assert_eq!(prefixed_filename(Some(&prefix), "logo.png"), "1234-logo.png");
    assert_eq!(prefixed_filename(None, "logo.png"), "logo.png");
}

#[test]
fn fresh_uuids_differ() {
    let a = fresh_uuid();
    let b = fresh_uuid();
    assert_eq!(a.len(), 36);
    assert_ne!(a, b);
}

#[test]
fn tex_filename_replaces_the_pdf_suffix_only() {
    assert_eq!(tex_filename("out.pdf"), "out.tex");
    assert_eq!(tex_filename("pdfs.pdf"), "pdfs.tex");
    assert_eq!(tex_filename("report-pdf.pdf"), "report-pdf.tex");
    assert_eq!(tex_filename("plain.txt"), "plain.txt");
    assert_eq!(tex_filename(".pdf"), ".tex");
    assert_eq!(tex_filename("pdf"), "pdf");
}

#[test]
fn conversion_is_decided_by_the_extension() {
    assert!(needs_conversion("/tmp/x/logo.png"));
    assert!(needs_conversion("/tmp/x/photo.JPG"));
    assert!(!needs_conversion("/tmp/x/doc.pdf"));
    assert!(!needs_conversion("/tmp/x/noextension"));
    assert!(!needs_conversion("/tmp/x/.hidden"));
    assert!(needs_conversion("/tmp/x/doc.PDF"));
}

#[test]
fn conversion_targets_sit_beside_the_input() {
    assert_eq!(pdf_target("/tmp/x/logo.png"), "/tmp/x/logo.pdf");
    assert_eq!(pdf_target("/tmp/x/archive.tar.gz"), "/tmp/x/archive.tar.pdf");
}

#[test]
fn pdfunite_takes_one_argument_per_asset_plus_the_output() {
    let inputs = vec![
        "/tmp/a.pdf".to_string(),
        "/tmp/b.pdf".to_string(),
        "/tmp/c.pdf".to_string(),
    ];
    let output = "merged.pdf".to_string();
    let args = pdfunite_args(&inputs, &output);
    assert_eq!(args.len(), inputs.len() + 1);
    assert_eq!(&args[..3], &inputs[..]);
    assert_eq!(args[3], "merged.pdf");
}

#[test]
fn whole_output_joins_both_streams() {
    assert_eq!(whole_output("from stdout", "from stderr"), "from stdout\nfrom stderr");
    assert_eq!(whole_output("", ""), "\n");
}
