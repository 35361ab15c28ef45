//! The template engine.
//!
//! The engine is tera, exposed with the two LaTeX filters `escape_tex`
//! and `unescape_tex` registered, so that templates can apply or undo the
//! escaping themselves. A template is registered under a name and then
//! rendered against a JSON context. What the engine computes is its own;
//! the conversions between this library's JSON values and the engine's
//! live beside the calls.

use vstd::prelude::*;
use crate::json::JsonValue;
use crate::error::{ErrorReport, EndpointError};

verus! {

/// serde_json's JSON value, which carries the variables into the engine.
#[verifier::external_type_specification]
#[verifier::external_body]
pub struct ExSerdeValue(serde_json::Value);

/// tera's engine.
#[verifier::external_type_specification]
#[verifier::external_body]
pub struct ExTera(tera::Tera);

/// tera's error.
#[verifier::external_type_specification]
#[verifier::external_body]
pub struct ExTeraError(tera::Error);

/// Relies on serde_json's `Value` constructors and `from_str`: rebuilds a
/// JSON value of this library as a serde_json one, node for node; a
/// number leaf is parsed back from its text.
#[verifier::external_body]
fn serde_value_of(v: &JsonValue) -> serde_json::Value {
    match v {
        JsonValue::Null => serde_json::Value::Null,
        JsonValue::Bool(b) => serde_json::Value::Bool(*b),
        JsonValue::Number(n) => serde_json::from_str(n.as_str()).unwrap_or(serde_json::Value::Null),
        JsonValue::String(s) => serde_json::Value::String(s.clone()),
        JsonValue::Array(a) => serde_json::Value::Array(a.iter().map(serde_value_of).collect()),
        JsonValue::Object(o) => serde_json::Value::Object(
            o.iter().map(|f| (f.0.clone(), serde_value_of(&f.1))).collect(),
        ),
    }
}

/// Relies on serde_json's `Value` accessors: rebuilds a serde_json value
/// as one of this library, node for node; a number leaf keeps its text.
#[verifier::external_body]
fn json_of_serde(v: &serde_json::Value) -> JsonValue {
    match v {
        serde_json::Value::Null => JsonValue::Null,
        serde_json::Value::Bool(b) => JsonValue::Bool(*b),
        serde_json::Value::Number(n) => JsonValue::Number(n.to_string()),
        serde_json::Value::String(s) => JsonValue::String(s.clone()),
        serde_json::Value::Array(a) => JsonValue::Array(a.iter().map(json_of_serde).collect()),
        serde_json::Value::Object(o) => JsonValue::Object(
            o.iter().map(|f| (f.0.clone(), json_of_serde(f.1))).collect(),
        ),
    }
}

/// The engine-facing form of [`crate::json::escape_tex`]. Relies on the
/// conversions beside it; the escaping itself is this library's.
#[verifier::external_body]
fn escape_tex_filter(
    value: &serde_json::Value,
    _args: &std::collections::HashMap<String, serde_json::Value>,
) -> tera::Result<serde_json::Value> {
    Ok(serde_value_of(&crate::json::escape_tex(&json_of_serde(value))))
}

/// The engine-facing form of [`crate::json::unescape_tex`]. Relies on the
/// conversions beside it; the unescaping itself is this library's.
#[verifier::external_body]
fn unescape_tex_filter(
    value: &serde_json::Value,
    _args: &std::collections::HashMap<String, serde_json::Value>,
) -> tera::Result<serde_json::Value> {
    Ok(serde_value_of(&crate::json::unescape_tex(&json_of_serde(value))))
}

/// Relies on tera's `Tera::default` and `register_filter`: a fresh engine
/// with the `escape_tex` and `unescape_tex` filters registered.
#[verifier::external_body]
pub fn make_tera() -> tera::Tera {
    let mut tera = tera::Tera::default();
    tera.register_filter("escape_tex", escape_tex_filter);
    tera.register_filter("unescape_tex", unescape_tex_filter);
    tera
}

/// Relies on tera's `add_raw_template`: registers the template source
/// under the given name; the error is the engine's diagnostic.
#[verifier::external_body]
pub fn add_raw_template(tera: &mut tera::Tera, name: &str, content: &str) -> Result<(), String> {
    tera.add_raw_template(name, content).map_err(|e| format!("{:?}", e))
}

/// Relies on tera's `render` and `Context::from_value`: renders the named
/// template against the given variables; the error is the engine's
/// diagnostic. What the engine produces may depend on more than its
/// arguments (templates can ask for the current time), so nothing is
/// claimed of the result.
#[verifier::external_body]
pub fn render_template(tera: &tera::Tera, name: &str, variables: &JsonValue) -> Result<
    String,
    String,
> {
    let context = match tera::Context::from_value(serde_value_of(variables)) {
        Ok(c) => c,
        Err(e) => return Err(format!("{}", e)),
    };
    tera.render(name, &context).map_err(|e| format!("{}", e))
}

/// How a failure of the engine reaches the client: an internal error
/// with no further causes, whose message wraps the engine's diagnostic --
/// `failed to add template: <diagnostic>` when the template did not
/// compile, `Rendering error: <diagnostic>.` when the render failed.
pub open spec fn engine_failure(e: EndpointError) -> bool {
    e matches EndpointError::InternalServerError { cause } && cause.causes.len() == 0 && ((exists|
        diag: Seq<char>,
    |
        cause.message@ == "failed to add template: "@ + diag) || (exists|diag: Seq<char>|
        cause.message@ == "Rendering error: "@ + diag + "."@))
}

/// Renders a template source against the given variables, with the two
/// LaTeX filters available. A failure to compile or render surfaces as an
/// [`engine_failure`] carrying the engine's diagnostic.
pub fn render_document(template_source: &str, variables: &JsonValue) -> (r: Result<
    String,
    EndpointError,
>)
    ensures
        r is Err ==> engine_failure(r->Err_0),
{
    let mut tera = make_tera();
    match add_raw_template(&mut tera, "template", template_source) {
        Ok(_) => {},
        Err(e) => {
            let mut msg = String::from_str("failed to add template: ");
            msg.append(e.as_str());
            proof {
                assert(msg@ == "failed to add template: "@ + e@);
            }
            return Err(
                EndpointError::InternalServerError {
                    cause: ErrorReport { message: msg, causes: Vec::new() },
                },
            );
        },
    }
    match render_template(&tera, "template", variables) {
        Ok(rendered) => Ok(rendered),
        Err(e) => {
            let mut msg = String::from_str("Rendering error: ");
            msg.append(e.as_str());
            msg.append(".");
            proof {
                assert(msg@ == "Rendering error: "@ + e@ + "."@);
            }
            Err(
                EndpointError::InternalServerError {
                    cause: ErrorReport { message: msg, causes: Vec::new() },
                },
            )
        },
    }
}

} // verus!
