//! Actions and events of the job state machines.
//!
//! A job never performs outside work itself: each step hands the runner
//! one [`Action`] (a download, a subprocess, an upload, the callback), and
//! the runner answers with one [`Event`] carrying the outcome. The
//! machines in [`crate::renderer`] and [`crate::merger`] decide, from
//! state and event alone, the next state and action.
//!
//! Each action and event has a ghost model over plain sequences; the laws
//! about whole runs -- exactly one callback, the scratch directory removed
//! at the end, the argument count of the PDF-union call -- are stated and
//! proved over those models.

use vstd::prelude::*;
use crate::error::ErrorReport;

verus! {

/// One subprocess invocation: a program and its arguments, run with the
/// job's directory as working directory.
#[derive(Debug)]
pub struct ProcessCall {
    pub program: String,
    pub args: Vec<String>,
}

/// One unit of outside work a job asks its runner to perform.
#[derive(Debug)]
pub enum Action {
    /// GET the URL, following redirects, stream the body into the job's
    /// directory under the filename the workspace rules decide, and
    /// answer `TemplateFetched` with the file's contents.
    FetchTemplate { url: String },
    /// Render the registered template: call the job's rendering function
    /// on these contents and answer `Rendered` with its result.
    Render { template_contents: String },
    /// Write the rendered source to the path and answer `TexWritten`.
    WriteTex { path: String, contents: String },
    /// Download every URL concurrently into the job's directory, the
    /// `i`-th under a filename prefixed with `prefixes[i]` when given,
    /// and answer `AssetsFetched` with the paths in the same order.
    FetchAssets { urls: Vec<String>, prefixes: Option<Vec<String>> },
    /// Run each conversion concurrently and answer `Converted`.
    ConvertAll { calls: Vec<ProcessCall> },
    /// Run the subprocess and answer `ProcessDone` with its combined
    /// output.
    RunProcess { call: ProcessCall },
    /// Upload the file at `path` under `key` and answer `Uploaded` with a
    /// presigned URL to it.
    Upload { path: String, key: String },
    /// POST `body` to `url` as JSON and answer `CallbackDone`.
    PostCallback { url: String, body: String },
    /// Tar the whole directory as `workspace.tar` inside it, upload the
    /// tar under `key`, and answer `TarUploaded`.
    UploadTar { dir: String, key: String },
    /// Remove the job's directory; the job is done.
    Cleanup { dir: String },
}

/// The outcome of one action, handed back by the runner.
#[derive(Debug)]
pub enum Event {
    /// Starts the job; the runner sends it once, first.
    Started,
    /// The template download finished: the contents of the downloaded
    /// file, or the failure.
    TemplateFetched(Result<String, ErrorReport>),
    /// The rendering finished: the populated source, or the failure.
    Rendered(Result<String, ErrorReport>),
    /// The write of the rendered source finished.
    TexWritten(Result<(), ErrorReport>),
    /// All asset downloads finished: each file's path, in request order,
    /// or the first failure.
    AssetsFetched(Result<Vec<String>, ErrorReport>),
    /// All conversions finished, or the first failure.
    Converted(Result<(), ErrorReport>),
    /// The subprocess exited: whether with status zero, and its combined
    /// standard output and error.
    ProcessDone { success: bool, output: String },
    /// The artifact upload finished: a presigned URL, or the failure.
    Uploaded(Result<String, ErrorReport>),
    /// The callback POST finished; a failure here is logged only.
    CallbackDone { ok: bool },
    /// The tar upload finished; a failure here is logged only.
    TarUploaded { ok: bool },
}

/// The ghost model of an action: what kind of work was asked, of whom,
/// with how many pieces.
pub enum ActionModel {
    FetchTemplate { url: Seq<char> },
    Render,
    WriteTex { path: Seq<char> },
    FetchAssets { count: nat },
    ConvertAll,
    RunProcess { program: Seq<char>, arg_count: nat },
    Upload { path: Seq<char>, key: Seq<char> },
    PostCallback { url: Seq<char> },
    UploadTar { dir: Seq<char>, key: Seq<char> },
    Cleanup { dir: Seq<char> },
}

/// The model of an action value.
pub open spec fn action_model(a: Action) -> ActionModel {
    match a {
        Action::FetchTemplate { url } => ActionModel::FetchTemplate { url: url@ },
        Action::Render { .. } => ActionModel::Render,
        Action::WriteTex { path, .. } => ActionModel::WriteTex { path: path@ },
        Action::FetchAssets { urls, .. } => ActionModel::FetchAssets { count: urls.len() as nat },
        Action::ConvertAll { .. } => ActionModel::ConvertAll,
        Action::RunProcess { call } => ActionModel::RunProcess {
            program: call.program@,
            arg_count: call.args.len() as nat,
        },
        Action::Upload { path, key } => ActionModel::Upload { path: path@, key: key@ },
        Action::PostCallback { url, .. } => ActionModel::PostCallback { url: url@ },
        Action::UploadTar { dir, key } => ActionModel::UploadTar { dir: dir@, key: key@ },
        Action::Cleanup { dir } => ActionModel::Cleanup { dir: dir@ },
    }
}

/// The ghost model of an event: its kind and outcome.
pub enum EventModel {
    Started,
    TemplateFetched { ok: bool },
    Rendered { ok: bool },
    TexWritten { ok: bool },
    AssetsFetched { ok: bool },
    Converted { ok: bool },
    ProcessDone { success: bool },
    Uploaded { ok: bool },
    CallbackDone,
    TarUploaded,
}

/// The model of an event value.
pub open spec fn event_model(e: Event) -> EventModel {
    match e {
        Event::Started => EventModel::Started,
        Event::TemplateFetched(r) => EventModel::TemplateFetched { ok: r is Ok },
        Event::Rendered(r) => EventModel::Rendered { ok: r is Ok },
        Event::TexWritten(r) => EventModel::TexWritten { ok: r is Ok },
        Event::AssetsFetched(r) => EventModel::AssetsFetched { ok: r is Ok },
        Event::Converted(r) => EventModel::Converted { ok: r is Ok },
        Event::ProcessDone { success, .. } => EventModel::ProcessDone { success },
        Event::Uploaded(r) => EventModel::Uploaded { ok: r is Ok },
        Event::CallbackDone { .. } => EventModel::CallbackDone,
        Event::TarUploaded { .. } => EventModel::TarUploaded,
    }
}

/// How many callback POSTs a sequence of actions holds.
pub open spec fn callback_count(actions: Seq<ActionModel>) -> nat
    decreases actions.len(),
{
    if actions.len() == 0 {
        0
    } else {
        (match actions[0] {
            ActionModel::PostCallback { .. } => 1 as nat,
            _ => 0 as nat,
        }) + callback_count(actions.drop_first())
    }
}

/// How many directory removals a sequence of actions holds.
pub open spec fn cleanup_count(actions: Seq<ActionModel>) -> nat
    decreases actions.len(),
{
    if actions.len() == 0 {
        0
    } else {
        (match actions[0] {
            ActionModel::Cleanup { .. } => 1 as nat,
            _ => 0 as nat,
        }) + cleanup_count(actions.drop_first())
    }
}

/// The JSON body of the callback that reports a failure whose readable
/// chain is `message` caused by `causes`, with an empty backtrace.
pub open spec fn failure_body_text(
    message: Seq<char>,
    causes: Seq<Seq<char>>,
    s3_dir: Seq<char>,
) -> Seq<char> {
    crate::summary::error_summary_text(
        crate::error::report_text(message, causes),
        Seq::<char>::empty(),
        s3_dir,
    )
}

/// Builds the callback body that reports the given failure for the job
/// whose object-store prefix is `s3_dir`.
pub fn failure_body(report: ErrorReport, s3_dir: &String) -> (r: String)
    ensures
        r@ == failure_body_text(report.message@, report.causes.deep_view(), s3_dir@),
{
    let error = crate::error::display_error(&report);
    let summary = crate::summary::Summary::Error {
        error,
        backtrace: String::new(),
        s3_folder: s3_dir.clone(),
    };
    summary.to_json()
}

/// The JSON body of the callback that reports success with the presigned
/// URL `file`.
pub open spec fn success_body_text(file: Seq<char>, s3_dir: Seq<char>) -> Seq<char> {
    crate::summary::file_summary_text(file, s3_dir)
}

/// Builds the callback body that reports success for the job whose
/// object-store prefix is `s3_dir`.
pub fn success_body(file: String, s3_dir: &String) -> (r: String)
    ensures
        r@ == success_body_text(file@, s3_dir@),
{
    let summary = crate::summary::Summary::File { file, s3_folder: s3_dir.clone() };
    summary.to_json()
}

/// Wraps a cause chain under a context line: the context becomes the top
/// message, the chain follows it.
pub fn with_context(context: &str, cause: ErrorReport) -> (r: ErrorReport)
    ensures
        r.message@ == context@,
        r.causes.deep_view() == seq![cause.message@] + cause.causes.deep_view(),
{
    let mut causes: Vec<String> = Vec::new();
    causes.push(cause.message);
    let mut i: usize = 0;
    while i < cause.causes.len()
        invariant
            0 <= i <= cause.causes.len(),
            causes.len() == i + 1,
            causes@[0] == cause.message,
            forall|j: int| 1 <= j < i + 1 ==> (#[trigger] causes@[j])@ == cause.causes@[j - 1]@,
        decreases cause.causes.len() - i,
    {
        causes.push(cause.causes[i].clone());
        i += 1;
    }
    proof {
        assert(causes.deep_view() =~= seq![cause.message@] + cause.causes.deep_view());
    }
    ErrorReport { message: String::from_str(context), causes }
}

} // verus!
