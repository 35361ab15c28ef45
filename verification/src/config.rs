//! Service configuration.
//!
//! The configuration is read once at startup from environment variables
//! and is read-only afterwards. The reading of the environment lives with
//! the process around the library; the decisions about what each raw value
//! means, defaults included, live here.

use vstd::prelude::*;
use crate::human_size::{Bytes, human_size_value, plain_u32_of, parse_u32};

verus! {

/// Default per-asset byte cap.
pub const MAX_ASSET_SIZE_DEFAULT: u32 = 10000000;

/// Default per-job asset count cap.
pub const MAX_ASSETS_PER_DOCUMENT_DEFAULT: u32 = 20;

/// Default presigned URL lifetime in seconds: one day.
pub const S3_EXPIRATION_DEFAULT: u32 = 86400;

/// Configuration for the object store integration. Credentials stay with
/// the process around the library.
pub struct S3Config {
    /// The bucket name.
    pub bucket: String,
    /// The region name of the bucket.
    pub region: String,
    /// A custom endpoint standing in for the region, when set.
    pub endpoint: Option<String>,
    /// The expiration time of presigned URLs in seconds.
    pub expiration_time: u32,
}

/// The service's configuration.
pub struct Config {
    /// The secret that requests must carry in the Authorization header;
    /// unset disables authentication.
    pub auth: Option<String>,
    /// Limits the number of assets allowed for a given DocumentSpec.
    pub max_assets_per_document: u32,
    /// Limits the size of the assets downloaded by the service, templates
    /// included.
    pub max_asset_size: u32,
    /// The object store configuration.
    pub s3: S3Config,
}

impl Config {
    /// A default configuration for testing purposes.
    pub fn for_tests() -> (r: Config)
        ensures
            r.auth is None,
            r.max_asset_size == MAX_ASSET_SIZE_DEFAULT,
            r.max_assets_per_document == MAX_ASSETS_PER_DOCUMENT_DEFAULT,
            r.s3.bucket@ == "walrus"@,
            r.s3.region@ == "local_s3"@,
            r.s3.endpoint is Some && r.s3.endpoint->0@ == "http://s3.localhost"@,
            r.s3.expiration_time == 3600,
    {
        Config {
            auth: None,
            max_asset_size: MAX_ASSET_SIZE_DEFAULT,
            max_assets_per_document: MAX_ASSETS_PER_DOCUMENT_DEFAULT,
            s3: S3Config {
                bucket: String::from_str("walrus"),
                region: String::from_str("local_s3"),
                endpoint: Some(String::from_str("http://s3.localhost")),
                expiration_time: 3600,
            },
        }
    }

    /// Return a new `Config` with the specified auth secret.
    pub fn with_auth(self, auth: String) -> (r: Config)
        ensures
            r.auth == Some(auth),
            r.max_assets_per_document == self.max_assets_per_document,
            r.max_asset_size == self.max_asset_size,
            r.s3 == self.s3,
    {
        Config { auth: Some(auth), ..self }
    }

    /// Set `max_assets_per_document` and return `self`.
    pub fn with_max_assets_per_document(self, max_assets_per_document: u32) -> (r: Config)
        ensures
            r.max_assets_per_document == max_assets_per_document,
            r.auth == self.auth,
            r.max_asset_size == self.max_asset_size,
            r.s3 == self.s3,
    {
        Config { max_assets_per_document, ..self }
    }

    /// The per-asset byte cap a raw environment value stands for: a
    /// human-readable size, or the default when the variable is unset,
    /// malformed, or out of range.
    pub fn max_asset_size_from(value: Option<&String>) -> (r: u32)
        ensures
            r == match value {
                Some(s) => match human_size_value(s@) {
                    Some(v) => if v <= u32::MAX {
                        v as u32
                    } else {
                        MAX_ASSET_SIZE_DEFAULT
                    },
                    None => MAX_ASSET_SIZE_DEFAULT,
                },
                None => MAX_ASSET_SIZE_DEFAULT,
            },
    {
        match value {
            Some(s) => match Bytes::from_str(s.as_str()) {
                Ok(b) => b.0,
                Err(_) => MAX_ASSET_SIZE_DEFAULT,
            },
            None => MAX_ASSET_SIZE_DEFAULT,
        }
    }

    /// The per-job asset count cap a raw environment value stands for:
    /// a plain number, or the default when the variable is unset or
    /// unparsable.
    pub fn max_assets_per_document_from(value: Option<&String>) -> (r: u32)
        ensures
            r == match value {
                Some(s) => match plain_u32_of(s@) {
                    Some(v) => v as u32,
                    None => MAX_ASSETS_PER_DOCUMENT_DEFAULT,
                },
                None => MAX_ASSETS_PER_DOCUMENT_DEFAULT,
            },
    {
        match value {
            Some(s) => match parse_u32(s.as_str()) {
                Some(v) => v,
                None => MAX_ASSETS_PER_DOCUMENT_DEFAULT,
            },
            None => MAX_ASSETS_PER_DOCUMENT_DEFAULT,
        }
    }

    /// The presigned URL lifetime a raw environment value stands for: the
    /// default when unset, the parsed number of seconds when well-formed,
    /// and `None` when set but unparsable, which the caller treats as a
    /// startup failure.
    pub fn expiration_from(value: Option<&String>) -> (r: Option<u32>)
        ensures
            r == match value {
                Some(s) => match plain_u32_of(s@) {
                    Some(v) => Some(v as u32),
                    None => None::<u32>,
                },
                None => Some(S3_EXPIRATION_DEFAULT),
            },
    {
        match value {
            Some(s) => parse_u32(s.as_str()),
            None => Some(S3_EXPIRATION_DEFAULT),
        }
    }

    /// The region a pair of raw environment values stands for: a custom
    /// endpoint named `localstack` when one is set, else the named
    /// region, else `None`, which the caller treats as a startup failure.
    pub fn region_from(localstack_endpoint: Option<String>, region: Option<String>) -> (r: Option<
        (String, Option<String>),
    >)
        ensures
            match localstack_endpoint {
                Some(ep) => match r {
                    Some(choice) => choice.0@ == "localstack"@ && choice.1 == Some(ep),
                    None => false,
                },
                None => match region {
                    Some(name) => r == Some((name, None::<String>)),
                    None => r is None,
                },
            },
    {
        match localstack_endpoint {
            Some(ep) => Some((String::from_str("localstack"), Some(ep))),
            None => match region {
                Some(name) => Some((name, None)),
                None => None,
            },
        }
    }
}

} // verus!
