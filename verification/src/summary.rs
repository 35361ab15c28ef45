//! The callback payload.
//!
//! At the end of a job, exactly one [`Summary`] is posted to the job's
//! callback URL: on success the presigned URL of the artifact, on failure
//! the human-readable error and its backtrace; both carry the job's object
//! store prefix.

use vstd::prelude::*;
use crate::json::{json_quoted, json_quote};

verus! {

/// The outcome of a job, as posted to its callback URL.
#[derive(Debug)]
pub enum Summary {
    /// The job produced an artifact reachable at `file`.
    File { file: String, s3_folder: String },
    /// The job failed with `error`; `backtrace` is informational, and
    /// the jobs of this library carry it as the empty string.
    Error { error: String, backtrace: String, s3_folder: String },
}

/// The JSON body of a success summary: the presigned URL under `file`,
/// the job's prefix under `s3_folder`.
pub open spec fn file_summary_text(file: Seq<char>, s3_folder: Seq<char>) -> Seq<char> {
    "{\"file\":"@ + json_quoted(file) + ",\"s3_folder\":"@ + json_quoted(s3_folder) + "}"@
}

/// The JSON body of a failure summary: the readable cause chain under
/// `error`, the backtrace, and the job's prefix under `s3_folder`.
pub open spec fn error_summary_text(
    error: Seq<char>,
    backtrace: Seq<char>,
    s3_folder: Seq<char>,
) -> Seq<char> {
    "{\"error\":"@ + json_quoted(error) + ",\"backtrace\":"@ + json_quoted(backtrace)
        + ",\"s3_folder\":"@ + json_quoted(s3_folder) + "}"@
}

impl Summary {
    /// The JSON body of this summary, fields in declaration order.
    pub open spec fn json_text(&self) -> Seq<char> {
        match self {
            Summary::File { file, s3_folder } => file_summary_text(file@, s3_folder@),
            Summary::Error { error, backtrace, s3_folder } => error_summary_text(
                error@,
                backtrace@,
                s3_folder@,
            ),
        }
    }

    /// Serializes this summary to its JSON body.
    pub fn to_json(&self) -> (r: String)
        ensures
            r@ == self.json_text(),
    {
        match self {
            Summary::File { file, s3_folder } => {
                let mut r = String::from_str("{\"file\":");
                r.append(json_quote(file.as_str()).as_str());
                r.append(",\"s3_folder\":");
                r.append(json_quote(s3_folder.as_str()).as_str());
                r.append("}");
                r
            },
            Summary::Error { error, backtrace, s3_folder } => {
                let mut r = String::from_str("{\"error\":");
                r.append(json_quote(error.as_str()).as_str());
                r.append(",\"backtrace\":");
                r.append(json_quote(backtrace.as_str()).as_str());
                r.append(",\"s3_folder\":");
                r.append(json_quote(s3_folder.as_str()).as_str());
                r.append("}");
                r
            },
        }
    }
}

} // verus!
