//! The job specifications clients submit.
//!
//! A `DocumentSpec` asks for a template to be rendered and typeset; a
//! `MergeSpec` asks for a set of documents to be united into one PDF.
//! Both are validated before a job is spawned.

use vstd::prelude::*;
use crate::config::Config;
use crate::error::{ErrorReport, EndpointError};
use crate::json::{JsonValue, json_eq, is_escaped_of, escape_tex, clone_json};
use crate::human_size::{dec_chars, u32_to_decimal};

verus! {

/// The default of the `no_escape_tex` field: escaping stays on.
pub fn return_false() -> (r: bool)
    ensures
        r == false,
{
    false
}

/// The default output filename: `out_<timestamp>.pdf`. The caller draws
/// the timestamp as RFC 3339 text ([`crate::workspace::now_rfc3339`]).
pub fn default_output_filename(timestamp: &str) -> (r: String)
    ensures
        r@ == "out_"@ + timestamp@ + ".pdf"@,
{
    let mut r = String::from_str("out_");
    r.append(timestamp);
    r.append(".pdf");
    r
}

/// The manifest for a render job. URLs are carried as their trimmed
/// strings.
pub struct DocumentSpec {
    /// The URLs of the assets downloaded next to the template.
    pub assets_urls: Vec<String>,
    /// Where the outcome is posted, exactly once.
    pub callback_url: String,
    /// The name of the produced artifact.
    pub output_filename: String,
    /// Where the template is fetched from.
    pub template_url: String,
    /// The values the template is rendered against.
    pub variables: JsonValue,
    /// When set, string leaves of `variables` pass through unescaped.
    pub no_escape_tex: bool,
}

impl DocumentSpec {
    /// The error message of a spec with too many assets.
    pub open spec fn too_many_assets_message(max: u32) -> Seq<char> {
        "Asset URLs length exceeds the maximum ("@ + dec_chars(max as nat) + ")."@
    }

    /// Checks the spec against the configured caps: it is rejected
    /// exactly when it names more assets than allowed.
    pub fn validate(&self, config: &Config) -> (r: Result<(), EndpointError>)
        ensures
            r is Ok <==> self.assets_urls.len() <= config.max_assets_per_document,
            r is Err ==> (r->Err_0 matches EndpointError::UnprocessableEntity { cause }
                && cause.message@ == Self::too_many_assets_message(
                config.max_assets_per_document,
            )),
    {
        if self.assets_urls.len() > config.max_assets_per_document as usize {
            let mut msg = String::from_str("Asset URLs length exceeds the maximum (");
            msg.append(u32_to_decimal(config.max_assets_per_document).as_str());
            msg.append(").");
            Err(
                EndpointError::UnprocessableEntity {
                    cause: ErrorReport { message: msg, causes: Vec::new() },
                },
            )
        } else {
            Ok(())
        }
    }

    /// The variables handed to the template engine: escaped for LaTeX,
    /// unless the spec turned escaping off.
    pub fn variables(&self) -> (r: JsonValue)
        ensures
            self.no_escape_tex ==> json_eq(r, self.variables),
            !self.no_escape_tex ==> is_escaped_of(r, self.variables),
    {
        if self.no_escape_tex {
            clone_json(&self.variables)
        } else {
            escape_tex(&self.variables)
        }
    }

    /// The callback URL as a string of its own.
    pub fn callback_url(&self) -> (r: String)
        ensures
            r@ == self.callback_url@,
    {
        self.callback_url.clone()
    }

    /// The asset URLs, in submission order.
    pub fn asset_urls(&self) -> (r: &Vec<String>)
        ensures
            r@ == self.assets_urls@,
    {
        &self.assets_urls
    }
}

/// The manifest for a merge job.
pub struct MergeSpec {
    /// The URLs of the documents to unite, in order; must not be empty.
    pub assets_urls: Vec<String>,
    /// Where the outcome is posted, exactly once.
    pub callback_url: String,
    /// The name of the produced artifact.
    pub output_filename: String,
}

impl MergeSpec {
    /// The asset URLs, in submission order.
    pub fn asset_urls(&self) -> (r: &Vec<String>)
        ensures
            r@ == self.assets_urls@,
    {
        &self.assets_urls
    }

    /// The callback URL as a string of its own.
    pub fn callback_url(&self) -> (r: String)
        ensures
            r@ == self.callback_url@,
    {
        self.callback_url.clone()
    }

    /// Validate that the specification is consistent, and that it can be
    /// expected to succeed: merging no documents at all is rejected.
    pub fn validate(&self) -> (r: Result<(), EndpointError>)
        ensures
            r is Ok <==> self.assets_urls.len() > 0,
            r is Err ==> (r->Err_0 matches EndpointError::UnprocessableEntity { cause }
                && cause.message@ == "Cannot merge with an empty asset_urls array."@),
    {
        if self.assets_urls.len() == 0 {
            Err(self.assets_count_error())
        } else {
            Ok(())
        }
    }

    /// The error a merge without assets is rejected with.
    fn assets_count_error(&self) -> (r: EndpointError)
        ensures
            r matches EndpointError::UnprocessableEntity { cause } && cause.message@
                == "Cannot merge with an empty asset_urls array."@,
    {
        EndpointError::UnprocessableEntity {
            cause: ErrorReport {
                message: String::from_str("Cannot merge with an empty asset_urls array."),
                causes: Vec::new(),
            },
        }
    }
}

} // verus!
