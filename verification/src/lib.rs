//! A verified core for a LaTeX-rendering and PDF-merging job service.
//!
//! Clients submit a JSON specification over HTTP; each accepted job runs a
//! small state machine that fetches a template and assets, renders the
//! template with LaTeX-escaped variables, runs a typesetting or PDF-union
//! subprocess, uploads the result, and fires exactly one callback. This
//! crate holds the verified logic of that pipeline: escaping, parsing,
//! validation, key construction, and the job state machines. The
//! surrounding process (HTTP transport, filesystem, subprocesses, object
//! store) performs the actions the state machines emit.

pub mod auth;
pub mod config;
pub mod endpoints;
pub mod error;
pub mod http_rules;
pub mod human_size;
pub mod jobs;
pub mod json;
pub mod latex;
pub mod merger;
pub mod papers;
pub mod renderer;
pub mod summary;
pub mod templating;
pub mod text;
pub mod uri;
pub mod workspace;

pub use config::Config;
pub use latex::{escape_tex_string, unescape_tex_string};
