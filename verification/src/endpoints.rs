//! The dispatcher's decisions.
//!
//! The HTTP layer parses each request's JSON and hands the spec here;
//! these functions decide whether the request is authorized and whether
//! the spec is accepted, and what the immediate reply is. The accepted
//! job itself is spawned and driven by the process around the library and
//! carries no knowledge of the request's outcome.

use vstd::prelude::*;
use crate::auth::{auth_allowed, check_auth};
use crate::config::Config;
use crate::error::{ErrorReport, EndpointError, Reply};
use crate::papers::{DocumentSpec, MergeSpec};

verus! {

/// Replies 200 with an empty body.
pub fn health_check() -> (r: Reply)
    ensures
        r.status == 200,
        r.body@.len() == 0,
{
    Reply { status: 200, body: String::new() }
}

/// Holds one request against the configured secret: allowed exactly when no
/// secret is configured or the `Authorization` header carries a matching
/// bearer token; everything else is forbidden.
pub fn authorize(config: &Config, auth_header: Option<&String>) -> (r: Result<(), EndpointError>)
    ensures
        r is Ok <==> auth_allowed(
            match config.auth {
                Some(s) => Some(s@),
                None => None,
            },
            match auth_header {
                Some(h) => Some(h@),
                None => None,
            },
        ),
        r is Err ==> (r->Err_0 matches EndpointError::Forbidden { cause } && cause.message@
            == "Missing or invalid Authorization header"@),
{
    if check_auth(config.auth.as_ref(), auth_header) {
        Ok(())
    } else {
        Err(
            EndpointError::Forbidden {
                cause: ErrorReport {
                    message: String::from_str("Missing or invalid Authorization header"),
                    causes: Vec::new(),
                },
            },
        )
    }
}

/// Decides one render submission: accepted, with an immediate empty 200,
/// exactly when the spec names no more assets than the configured cap.
/// The render job runs detached; no download starts on a rejected spec.
pub fn submit(document_spec: &DocumentSpec, config: &Config) -> (r: Result<Reply, EndpointError>)
    ensures
        r is Ok <==> document_spec.assets_urls.len() <= config.max_assets_per_document,
        r is Ok ==> r->Ok_0.status == 200 && r->Ok_0.body@.len() == 0,
        r is Err ==> (r->Err_0 matches EndpointError::UnprocessableEntity { cause }
            && cause.message@ == DocumentSpec::too_many_assets_message(
            config.max_assets_per_document,
        )),
{
    match document_spec.validate(config) {
        Ok(_) => Ok(Reply { status: 200, body: String::new() }),
        Err(e) => Err(e),
    }
}

/// Decides one merge submission: accepted, with an immediate empty 200,
/// exactly when the spec names at least one asset. The merge job runs
/// detached; nothing is spawned for a rejected spec.
pub fn merge(merge_spec: &MergeSpec) -> (r: Result<Reply, EndpointError>)
    ensures
        r is Ok <==> merge_spec.assets_urls.len() > 0,
        r is Ok ==> r->Ok_0.status == 200 && r->Ok_0.body@.len() == 0,
        r is Err ==> (r->Err_0 matches EndpointError::UnprocessableEntity { cause }
            && cause.message@ == "Cannot merge with an empty asset_urls array."@),
{
    match merge_spec.validate() {
        Ok(_) => Ok(Reply { status: 200, body: String::new() }),
        Err(e) => Err(e),
    }
}

/// Decides one preview request: the same validation as a submission. On
/// acceptance the caller downloads the template and renders it with
/// [`preview_reply`]; nothing of the object store or LaTeX is touched.
pub fn preview(document_spec: &DocumentSpec, config: &Config) -> (r: Result<(), EndpointError>)
    ensures
        r is Ok <==> document_spec.assets_urls.len() <= config.max_assets_per_document,
        r is Err ==> (r->Err_0 matches EndpointError::UnprocessableEntity { cause }
            && cause.message@ == DocumentSpec::too_many_assets_message(
            config.max_assets_per_document,
        )),
{
    document_spec.validate(config)
}

/// Renders the template source against the spec's variables, escaped per
/// the spec's flag, with the two LaTeX filters available. The engine
/// decides success; a failure surfaces as an
/// [`crate::templating::engine_failure`] with the engine's diagnostic.
pub fn preview_render(document_spec: &DocumentSpec, template_source: &str) -> (r: Result<
    String,
    EndpointError,
>)
    ensures
        r is Err ==> crate::templating::engine_failure(r->Err_0),
{
    let variables = document_spec.variables();
    crate::templating::render_document(template_source, &variables)
}

/// The reply of a successful preview: 200, whose body is exactly the
/// rendered source.
pub fn preview_reply(rendered: String) -> (r: Reply)
    ensures
        r.status == 200,
        r.body@ == rendered@,
{
    Reply { status: 200, body: rendered }
}

} // verus!
