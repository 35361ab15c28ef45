//! End-to-end runs of the job state machines: a submission, a merge, and
//! a rejected merge, with the runner's side played by the test.

use papers::config::Config;
use papers::endpoints::{merge, submit};
use papers::jobs::{Action, Event};
use papers::json::JsonValue;
use papers::merger::Merger;
use papers::papers::{DocumentSpec, MergeSpec};
use papers::renderer::Renderer;
use papers::workspace::Workspace;

static TEMPLATE: &'static str = r"
\documentclass{article}

\begin{document}
hello, {{who}}

\end{document}
";

#[test]
fn test_submit() {
    let template_url = "http://localhost:49701/template".to_string();
    let asset_url = "http://localhost:49701/logo.png".to_string();
    let callback_url = "http://localhost:49702/callback".to_string();

    let spec = DocumentSpec {
        assets_urls: vec![asset_url.clone()],
        callback_url: callback_url.clone(),
        output_filename: "out.pdf".to_string(),
        template_url: template_url.clone(),
        variables: JsonValue::Object(vec![(
            "who".to_string(),
            JsonValue::String("peter".to_string()),
        )]),
        no_escape_tex: false,
    };

    let config = Config::for_tests();
    let accepted = submit(&spec, &config).unwrap();
    assert_eq!(accepted.status, 200);

    let workspace = Workspace::new(
        "/tmp/papers-test-submit".to_string(),
        "2019-01-01 00:00:00 UTC".to_string(),
    );
    let mut job = Renderer::new(spec, workspace);
    let mut file_requests: Vec<String> = Vec::new();
    let mut callback_requests: Vec<(String, String)> = Vec::new();

    let action = job.step(Event::Started);
    let template_contents = match action {
        Action::FetchTemplate { url } => {
            assert_eq!(url, template_url);
            file_requests.push(url);
            TEMPLATE.to_string()
        }
        other => panic!("expected a template fetch, got {:?}", other),
    };

    let action = job.step(Event::TemplateFetched(Ok(template_contents)));
    let rendered = match action {
        Action::Render { template_contents } => job.render_source(&template_contents).unwrap(),
        other => panic!("expected a render, got {:?}", other),
    };
    assert!(rendered.contains("hello, peter"));

    let action = job.step(Event::Rendered(Ok(rendered)));
    match action {
        Action::WriteTex { path, contents } => {
            assert_eq!(path, "/tmp/papers-test-submit/out.tex");
            assert!(contents.contains("hello, peter"));
        }
        other => panic!("expected the source write, got {:?}", other),
    }

    let action = job.step(Event::TexWritten(Ok(())));
    match action {
        Action::FetchAssets { urls, prefixes } => {
            assert_eq!(urls, vec![asset_url.clone()]);
            assert!(prefixes.is_none());
            file_requests.extend(urls);
        }
        other => panic!("expected the asset downloads, got {:?}", other),
    }

    let action = job.step(Event::AssetsFetched(Ok(vec![
        "/tmp/papers-test-submit/logo.png".to_string(),
    ])));
    match action {
        Action::RunProcess { ref call } => {
            assert_eq!(call.program, "xelatex");
            assert_eq!(
                call.args,
                vec![
                    "-interaction=nonstopmode".to_string(),
                    "-file-line-error".to_string(),
                    "-shell-restricted".to_string(),
                    "/tmp/papers-test-submit/out.tex".to_string(),
                ]
            );
        }
        ref other => panic!("expected the typesetting call, got {:?}", other),
    }

    let action = job.step(Event::ProcessDone {
        success: true,
        output: "".to_string(),
    });
    match action {
        Action::Upload { path, key } => {
            assert_eq!(path, "/tmp/papers-test-submit/out.pdf");
            assert_eq!(key, "2019-01-01 00:00:00 UTC/out.pdf");
        }
        other => panic!("expected the artifact upload, got {:?}", other),
    }

    let action = job.step(Event::Uploaded(Ok(
        "https://bucket.example.com/presigned".to_string()
    )));
    match action {
        Action::PostCallback { url, body } => callback_requests.push((url, body)),
        other => panic!("expected the callback, got {:?}", other),
    }

    let action = job.step(Event::CallbackDone { ok: true });
    assert!(matches!(action, Action::UploadTar { .. }));

    let action = job.step(Event::TarUploaded { ok: true });
    match action {
        Action::Cleanup { dir } => assert_eq!(dir, "/tmp/papers-test-submit"),
        other => panic!("expected the directory removal, got {:?}", other),
    }

    // One GET for the template, one for the asset, in that order; and
    // exactly one callback POST, reporting success.
    assert_eq!(file_requests, vec![template_url, asset_url]);
    assert_eq!(callback_requests.len(), 1);
    assert_eq!(callback_requests[0].0, callback_url);
    assert!(callback_requests[0].1.contains("\"file\":"));
    assert!(callback_requests[0].1.contains("presigned"));
}

#[test]
fn test_merge() {
    let logo_url = "http://localhost:49711/logo.png".to_string();
    let doc_url = "http://localhost:49711/doc.pdf".to_string();
    let callback_url = "http://localhost:49712/done".to_string();

    let spec = MergeSpec {
        assets_urls: vec![logo_url.clone(), doc_url.clone()],
        callback_url: callback_url.clone(),
        output_filename: "out.pdf".to_string(),
    };

    let accepted = merge(&spec).unwrap();
    assert_eq!(accepted.status, 200);

    let workspace = Workspace::new(
        "/tmp/papers-test-merge".to_string(),
        "2019-01-02 00:00:00 UTC".to_string(),
    );
    let mut job = Merger::new(spec, workspace);
    let mut callback_requests: Vec<(String, String)> = Vec::new();

    let action = job.step(Event::Started);
    match action {
        Action::FetchAssets { urls, prefixes } => {
            assert_eq!(urls, vec![logo_url.clone(), doc_url.clone()]);
            let prefixes = prefixes.expect("merge downloads carry unique prefixes");
            assert_eq!(prefixes.len(), 2);
            assert_ne!(prefixes[0], prefixes[1]);
        }
        other => panic!("expected the asset downloads, got {:?}", other),
    }

    let logo_path = "/tmp/papers-test-merge/prefix-a-logo.png".to_string();
    let doc_path = "/tmp/papers-test-merge/prefix-b-doc.pdf".to_string();
    let action = job.step(Event::AssetsFetched(Ok(vec![
        logo_path.clone(),
        doc_path.clone(),
    ])));
    match action {
        Action::ConvertAll { calls } => {
            // Only the image is converted; the PDF is kept as it is.
            assert_eq!(calls.len(), 1);
            assert_eq!(calls[0].program, "convert");
            assert_eq!(calls[0].args.first().unwrap(), &logo_path);
            assert_eq!(
                calls[0].args.last().unwrap(),
                "/tmp/papers-test-merge/prefix-a-logo.pdf"
            );
        }
        other => panic!("expected the conversions, got {:?}", other),
    }

    let action = job.step(Event::Converted(Ok(())));
    match action {
        Action::RunProcess { ref call } => {
            assert_eq!(call.program, "pdfunite");
            // One argument per asset, in submission order, plus the output.
            assert_eq!(
                call.args,
                vec![
                    "/tmp/papers-test-merge/prefix-a-logo.pdf".to_string(),
                    doc_path.clone(),
                    "out.pdf".to_string(),
                ]
            );
        }
        ref other => panic!("expected the union call, got {:?}", other),
    }

    let action = job.step(Event::ProcessDone {
        success: true,
        output: "".to_string(),
    });
    assert!(matches!(action, Action::Upload { .. }));

    let action = job.step(Event::Uploaded(Ok(
        "https://bucket.example.com/merged".to_string()
    )));
    match action {
        Action::PostCallback { url, body } => callback_requests.push((url, body)),
        other => panic!("expected the callback, got {:?}", other),
    }

    let action = job.step(Event::CallbackDone { ok: true });
    assert!(matches!(action, Action::UploadTar { .. }));

    let action = job.step(Event::TarUploaded { ok: true });
    match action {
        Action::Cleanup { dir } => assert_eq!(dir, "/tmp/papers-test-merge"),
        other => panic!("expected the directory removal, got {:?}", other),
    }

    assert_eq!(callback_requests.len(), 1);
    assert_eq!(callback_requests[0].0, callback_url);
    assert!(callback_requests[0].1.contains("\"file\":"));
}

#[test]
fn test_merge_rejection() {
    let spec = MergeSpec {
        assets_urls: vec![],
        callback_url: "http://localhost:49712/done".to_string(),
        output_filename: "out.pdf".to_string(),
    };

    let response = merge(&spec).unwrap_err().to_response();
    assert_eq!(response.status, 422);
}

#[test]
fn failed_typesetting_still_reports_once_and_cleans_up() {
    let spec = DocumentSpec {
        assets_urls: vec![],
        callback_url: "http://localhost:49702/callback".to_string(),
        output_filename: "out.pdf".to_string(),
        template_url: "http://localhost:49701/template".to_string(),
        variables: JsonValue::Object(vec![]),
        no_escape_tex: false,
    };

    let workspace = Workspace::new(
        "/tmp/papers-test-fail".to_string(),
        "2019-01-03 00:00:00 UTC".to_string(),
    );
    let mut job = Renderer::new(spec, workspace);
    let mut callback_requests: Vec<(String, String)> = Vec::new();

    let _ = job.step(Event::Started);
    let _ = job.step(Event::TemplateFetched(Ok("\\documentclass{article}".to_string())));
    let _ = job.step(Event::Rendered(Ok("\\documentclass{article}".to_string())));
    let _ = job.step(Event::TexWritten(Ok(())));
    let _ = job.step(Event::AssetsFetched(Ok(vec![])));
    let action = job.step(Event::ProcessDone {
        success: false,
        output: "! LaTeX Error".to_string(),
    });
    match action {
        Action::PostCallback { url, body } => {
            assert_eq!(url, "http://localhost:49702/callback");
            assert!(body.contains("\"error\":"));
            assert!(body.contains("LaTeX failed. Stdout:"));
            callback_requests.push((url, body));
        }
        other => panic!("expected the failure callback, got {:?}", other),
    }

    let action = job.step(Event::CallbackDone { ok: false });
    assert!(matches!(action, Action::UploadTar { .. }));
    let action = job.step(Event::TarUploaded { ok: false });
    match action {
        Action::Cleanup { dir } => assert_eq!(dir, "/tmp/papers-test-fail"),
        other => panic!("expected the directory removal, got {:?}", other),
    }
    assert_eq!(callback_requests.len(), 1);
}

#[test]
fn failed_download_reports_the_cause_chain() {
    let spec = MergeSpec {
        assets_urls: vec!["http://localhost:1/a.pdf".to_string()],
        callback_url: "http://localhost:2/done".to_string(),
        output_filename: "out.pdf".to_string(),
    };
    let workspace = Workspace::new(
        "/tmp/papers-test-merge-fail".to_string(),
        "2019-01-04 00:00:00 UTC".to_string(),
    );
    let mut job = Merger::new(spec, workspace);
    let _ = job.step(Event::Started);
    let failure = papers::error::ErrorReport {
        message: "Error downloading asset".to_string(),
        causes: vec!["connection refused".to_string()],
    };
    let action = job.step(Event::AssetsFetched(Err(failure)));
    match action {
        Action::PostCallback { url, body } => {
            assert_eq!(url, "http://localhost:2/done");
            let parsed: serde_json::Value = serde_json::from_str(&body).unwrap();
            assert_eq!(
                parsed["error"],
                serde_json::Value::String(
                    "Error downloading assets.\nCaused by: Error downloading asset\nCaused by: connection refused\n"
                        .to_string()
                )
            );
            assert_eq!(parsed["backtrace"], serde_json::Value::String("".to_string()));
        }
        other => panic!("expected the failure callback, got {:?}", other),
    }
}
