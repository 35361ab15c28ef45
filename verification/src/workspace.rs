//! The per-job workspace.
//!
//! Each job owns a scratch directory and a stable object-store prefix that
//! every upload of the job lives under. The directory itself is created
//! and removed by the process around the library; this model holds its
//! path, derives the per-job prefix, and makes every path and key
//! decision: where a download lands, what its file is called, and under
//! which keys the artifact and the workspace tar are stored.

use vstd::prelude::*;
use crate::error::{ErrorReport, EndpointError};
use crate::uri::filename_of_uri;

verus! {

/// Relies on chrono's `Utc::now` and the `Display` of its UTC timestamps:
/// the text of the current time, never empty.
#[verifier::external_body]
pub fn now_timestamp_string() -> (r: String)
    ensures
        r@.len() > 0,
{
    format!("{}", chrono::Utc::now())
}

/// Relies on chrono's `DateTime::to_rfc3339`: the RFC 3339 text of the
/// current time, never empty.
#[verifier::external_body]
pub fn now_rfc3339() -> (r: String)
    ensures
        r@.len() > 0,
{
    chrono::Utc::now().to_rfc3339()
}

/// Relies on uuid's `Uuid::new_v4` and its `Display`: a random identifier
/// in the hyphenated form, which is 36 characters long. It panics only
/// when the operating system's random source fails, an environmental
/// condition no input could exclude.
#[verifier::external_body]
pub fn fresh_uuid() -> (r: String)
    ensures
        r@.len() == 36,
{
    uuid::Uuid::new_v4().to_string()
}

/// A filename with a prefix put before it, joined with `-`; without a
/// prefix, the name alone.
pub open spec fn prefixed_name(prefix: Option<Seq<char>>, name: Seq<char>) -> Seq<char> {
    match prefix {
        Some(p) => p + seq!['-'] + name,
        None => name,
    }
}

/// Joins an optional prefix and a filename with `-`.
pub fn prefixed_filename(prefix: Option<&String>, name: &str) -> (r: String)
    ensures
        r@ == prefixed_name(
            match prefix {
                Some(p) => Some(p@),
                None => None,
            },
            name@,
        ),
{
    match prefix {
        Some(p) => {
            let mut r = p.clone();
            r.push('-');
            r.append(name);
            r
        },
        None => String::from_str(name),
    }
}

/// The filename a download is stored under: the name from the response's
/// `Content-Disposition` header when there is one, else the last
/// non-empty path segment of the URL, else nothing.
pub open spec fn chosen_filename(disposition: Option<Seq<char>>, uri: Seq<char>) -> Option<
    Seq<char>,
> {
    match disposition {
        Some(d) => Some(d),
        None => filename_of_uri(uri),
    }
}

/// Decides the filename of one download, from the response's
/// `Content-Disposition` name and the URL, in that order; with neither,
/// the download fails.
pub fn choose_filename(disposition: Option<String>, uri: &str) -> (r: Result<
    String,
    EndpointError,
>)
    ensures
        match chosen_filename(
            match disposition {
                Some(d) => Some(d@),
                None => None,
            },
            uri@,
        ) {
            Some(name) => r is Ok && r->Ok_0@ == name,
            None => r is Err && (r->Err_0 matches EndpointError::UnprocessableEntity { cause }
                && cause.message@ == "Could not produce filename for "@ + uri@),
        },
{
    match disposition {
        Some(d) => Ok(d),
        None => match crate::uri::extract_filename_from_uri(uri) {
            Some(name) => Ok(name),
            None => {
                let mut msg = String::from_str("Could not produce filename for ");
                msg.append(uri);
                Err(
                    EndpointError::UnprocessableEntity {
                        cause: ErrorReport { message: msg, causes: Vec::new() },
                    },
                )
            },
        },
    }
}

/// A wrapper around a temporary directory where the job downloads and
/// manipulates files, and the object-store prefix of its uploads.
pub struct Workspace {
    /// The path of the job's scratch directory.
    pub temp_dir: String,
    /// The directory the job uploads to inside the destination bucket.
    pub s3_dir_name: String,
}

impl Workspace {
    /// A workspace rooted at an existing scratch directory, uploading
    /// under the given prefix. The caller draws the prefix from the
    /// current time ([`now_timestamp_string`]), one per job, so that no
    /// two jobs share it.
    pub fn new(temp_dir: String, s3_dir_name: String) -> (r: Workspace)
        ensures
            r.temp_dir == temp_dir,
            r.s3_dir_name == s3_dir_name,
    {
        Workspace { temp_dir, s3_dir_name }
    }

    /// The object-store key of a file of this job: the job's prefix, a
    /// slash, and the filename.
    pub open spec fn key_of(&self, filename: Seq<char>) -> Seq<char> {
        self.s3_dir_name@ + seq!['/'] + filename
    }

    /// The key the artifact `filename` is uploaded under.
    pub fn artifact_key(&self, filename: &str) -> (r: String)
        ensures
            r@ == self.key_of(filename@),
    {
        let mut r = self.s3_dir_name.clone();
        r.push('/');
        r.append(filename);
        r
    }

    /// The key the workspace tar is uploaded under.
    pub fn tar_key(&self) -> (r: String)
        ensures
            r@ == self.key_of("workspace.tar"@),
    {
        let mut r = self.s3_dir_name.clone();
        r.push('/');
        r.append("workspace.tar");
        r
    }

    /// The path of a file inside the scratch directory.
    pub open spec fn path_of(&self, filename: Seq<char>) -> Seq<char> {
        self.temp_dir@ + seq!['/'] + filename
    }

    /// Where a file of the given name lands inside the scratch directory.
    pub fn dest_path(&self, filename: &str) -> (r: String)
        ensures
            r@ == self.path_of(filename@),
    {
        let mut r = self.temp_dir.clone();
        r.push('/');
        r.append(filename);
        r
    }
}

} // verus!
