//! The render job: a state machine per submission.
//!
//! A render job downloads its template, renders it against the escaped
//! variables, writes the populated source, downloads the assets, runs the
//! typesetting subprocess, uploads the artifact, and posts exactly one
//! callback; whatever happened, it then uploads the workspace tar and
//! removes its directory. Any stage failure short-circuits to the
//! reporting stage.

use vstd::prelude::*;
use crate::error::{ErrorReport, EndpointError};
use crate::jobs::{Action, Event, ActionModel, EventModel, ProcessCall, action_model, event_model,
    callback_count, cleanup_count, failure_body, failure_body_text, success_body,
    success_body_text};
use crate::papers::DocumentSpec;
use crate::workspace::Workspace;

verus! {

/// The stages of a render job, in the order a successful run passes
/// them. A failure in any working stage moves straight to `Reporting`.
#[derive(PartialEq, Eq, Structural, Clone, Copy, Debug)]
pub enum RenderStage {
    /// Accepted, not yet started.
    Created,
    /// The template is being downloaded.
    TemplateFetching,
    /// The template is being rendered against the variables.
    Rendering,
    /// The populated source is being written to disk.
    TexWriting,
    /// The assets are being downloaded, concurrently.
    AssetsFetching,
    /// The typesetting subprocess is running.
    Typesetting,
    /// The artifact is being uploaded.
    Uploading,
    /// The callback is being posted.
    Reporting,
    /// The workspace tar is being uploaded.
    TarUpload,
    /// The directory is removed; nothing more happens.
    Done,
}

/// `s` with a trailing `.pdf` replaced by `.tex`; any other name stands
/// as it is.
pub open spec fn tex_name_of(s: Seq<char>) -> Seq<char> {
    if s.len() >= 4 && s.subrange(s.len() - 4, s.len() as int) == seq!['.', 'p', 'd', 'f'] {
        s.subrange(0, s.len() - 4) + seq!['.', 't', 'e', 'x']
    } else {
        s
    }
}

/// Replaces a trailing `.pdf` of a filename with `.tex`.
pub fn tex_filename(name: &str) -> (r: String)
    ensures
        r@ == tex_name_of(name@),
{
    let n = name.unicode_len();
    if n >= 4 && name.get_char(n - 4) == '.' && name.get_char(n - 3) == 'p' && name.get_char(
        n - 2,
    ) == 'd' && name.get_char(n - 1) == 'f' {
        let mut r = crate::text::copy_range(name, 0, n - 4);
        r.append(".tex");
        proof {
            reveal_strlit(".tex");
            assert(name@.subrange(n - 4, n as int) =~= seq!['.', 'p', 'd', 'f']);
            assert(".tex"@ =~= seq!['.', 't', 'e', 'x']);
        }
        r
    } else {
        proof {
            if name@.len() >= 4 {
                let tail = name@.subrange(n - 4, n as int);
                assert(tail[0] == name@[n - 4]);
                assert(tail[1] == name@[n - 3]);
                assert(tail[2] == name@[n - 2]);
                assert(tail[3] == name@[n - 1]);
                assert(tail != seq!['.', 'p', 'd', 'f']);
            }
        }
        String::from_str(name)
    }
}

/// The ghost model of a render job: its stage and the plain texts its
/// actions are built from.
pub struct RenderModel {
    pub stage: RenderStage,
    pub template_url: Seq<char>,
    pub callback_url: Seq<char>,
    pub asset_count: nat,
    pub temp_dir: Seq<char>,
    pub s3_dir: Seq<char>,
    pub output_path: Seq<char>,
    pub template_path: Seq<char>,
    pub output_filename: Seq<char>,
}

/// The same model at another stage.
pub open spec fn at_stage(m: RenderModel, stage: RenderStage) -> RenderModel {
    RenderModel {
        stage,
        template_url: m.template_url,
        callback_url: m.callback_url,
        asset_count: m.asset_count,
        temp_dir: m.temp_dir,
        s3_dir: m.s3_dir,
        output_path: m.output_path,
        template_path: m.template_path,
        output_filename: m.output_filename,
    }
}

/// The transition table of a render job, over the model: from a stage and
/// an event's outcome to the next stage and the action asked of the
/// runner. `None` stands for an event the stage does not accept.
pub open spec fn spec_render_step(m: RenderModel, e: EventModel) -> (RenderModel, Option<
    ActionModel,
>) {
    let fail = (
        at_stage(m, RenderStage::Reporting),
        Some(ActionModel::PostCallback { url: m.callback_url }),
    );
    match (m.stage, e) {
        (RenderStage::Created, EventModel::Started) => (
            at_stage(m, RenderStage::TemplateFetching),
            Some(ActionModel::FetchTemplate { url: m.template_url }),
        ),
        (RenderStage::TemplateFetching, EventModel::TemplateFetched { ok }) => if ok {
            (at_stage(m, RenderStage::Rendering), Some(ActionModel::Render))
        } else {
            fail
        },
        (RenderStage::Rendering, EventModel::Rendered { ok }) => if ok {
            (
                at_stage(m, RenderStage::TexWriting),
                Some(ActionModel::WriteTex { path: m.template_path }),
            )
        } else {
            fail
        },
        (RenderStage::TexWriting, EventModel::TexWritten { ok }) => if ok {
            (
                at_stage(m, RenderStage::AssetsFetching),
                Some(ActionModel::FetchAssets { count: m.asset_count }),
            )
        } else {
            fail
        },
        (RenderStage::AssetsFetching, EventModel::AssetsFetched { ok }) => if ok {
            (
                at_stage(m, RenderStage::Typesetting),
                Some(ActionModel::RunProcess { program: "xelatex"@, arg_count: 4 }),
            )
        } else {
            fail
        },
        (RenderStage::Typesetting, EventModel::ProcessDone { success }) => if success {
            (
                at_stage(m, RenderStage::Uploading),
                Some(
                    ActionModel::Upload {
                        path: m.output_path,
                        key: m.s3_dir + seq!['/'] + m.output_filename,
                    },
                ),
            )
        } else {
            fail
        },
        (RenderStage::Uploading, EventModel::Uploaded { ok }) => if ok {
            (
                at_stage(m, RenderStage::Reporting),
                Some(ActionModel::PostCallback { url: m.callback_url }),
            )
        } else {
            fail
        },
        (RenderStage::Reporting, EventModel::CallbackDone) => (
            at_stage(m, RenderStage::TarUpload),
            Some(
                ActionModel::UploadTar {
                    dir: m.temp_dir,
                    key: m.s3_dir + seq!['/'] + "workspace.tar"@,
                },
            ),
        ),
        (RenderStage::TarUpload, EventModel::TarUploaded) => (
            at_stage(m, RenderStage::Done),
            Some(ActionModel::Cleanup { dir: m.temp_dir }),
        ),
        _ => (m, None),
    }
}

/// The renderer: the manifest of one render job and where that job
/// stands.
pub struct Renderer {
    /// The manifest for the document to render.
    pub document_spec: DocumentSpec,
    /// The job's scratch directory and object-store prefix.
    pub workspace: Workspace,
    /// The path of the rendered document.
    pub output_path: String,
    /// The path the populated source is written to.
    pub template_path: String,
    /// Where the job stands.
    pub stage: RenderStage,
}

impl Renderer {
    /// The ghost model of this job.
    pub open spec fn model(&self) -> RenderModel {
        RenderModel {
            stage: self.stage,
            template_url: self.document_spec.template_url@,
            callback_url: self.document_spec.callback_url@,
            asset_count: self.document_spec.assets_urls.len() as nat,
            temp_dir: self.workspace.temp_dir@,
            s3_dir: self.workspace.s3_dir_name@,
            output_path: self.output_path@,
            template_path: self.template_path@,
            output_filename: self.document_spec.output_filename@,
        }
    }

    /// A fresh render job over the given workspace. The artifact lands
    /// under the spec's output filename; the populated source beside it,
    /// with a trailing `.pdf` replaced by `.tex` in its name.
    pub fn new(document_spec: DocumentSpec, workspace: Workspace) -> (r: Renderer)
        ensures
            r.stage == RenderStage::Created,
            r.document_spec == document_spec,
            r.workspace == workspace,
            r.output_path@ == r.workspace.path_of(document_spec.output_filename@),
            r.template_path@ == r.workspace.path_of(tex_name_of(
                document_spec.output_filename@,
            )),
    {
        let output_path = workspace.dest_path(document_spec.output_filename.as_str());
        let tex_name = tex_filename(document_spec.output_filename.as_str());
        let template_path = workspace.dest_path(tex_name.as_str());
        Renderer { document_spec, workspace, output_path, template_path, stage:
            RenderStage::Created }
    }

    /// Renders the template contents against the job's variables, escaped
    /// unless the spec turned escaping off. A failure is an
    /// [`crate::templating::engine_failure`] with the engine's diagnostic.
    pub fn render_source(&self, template_contents: &str) -> (r: Result<String, EndpointError>)
        ensures
            r is Err ==> crate::templating::engine_failure(r->Err_0),
    {
        let variables = self.document_spec.variables();
        crate::templating::render_document(template_contents, &variables)
    }

    /// Which events this job can take now.
    pub open spec fn accepts(&self, e: Event) -> bool {
        match (self.stage, e) {
            (RenderStage::Created, Event::Started) => true,
            (RenderStage::TemplateFetching, Event::TemplateFetched(_)) => true,
            (RenderStage::Rendering, Event::Rendered(_)) => true,
            (RenderStage::TexWriting, Event::TexWritten(_)) => true,
            (RenderStage::AssetsFetching, Event::AssetsFetched(r)) => r is Ok ==> r->Ok_0.len()
                == self.document_spec.assets_urls.len(),
            (RenderStage::Typesetting, Event::ProcessDone { .. }) => true,
            (RenderStage::Uploading, Event::Uploaded(_)) => true,
            (RenderStage::Reporting, Event::CallbackDone { .. }) => true,
            (RenderStage::TarUpload, Event::TarUploaded { .. }) => true,
            _ => false,
        }
    }

    /// Takes one event and moves the job one stage on, handing back the
    /// next action. The transition is the model's; the action's payloads
    /// are pinned below, case by case.
    #[verifier::rlimit(100)]
    pub fn step(&mut self, event: Event) -> (action: Action)
        requires
            old(self).accepts(event),
        ensures
            ({
                let (m2, am) = spec_render_step(old(self).model(), event_model(event));
                final(self).model() == m2 && am == Some(action_model(action))
            }),
            final(self).document_spec == old(self).document_spec,
            final(self).workspace == old(self).workspace,
            final(self).output_path == old(self).output_path,
            final(self).template_path == old(self).template_path,
            match (old(self).stage, event) {
                (RenderStage::Created, Event::Started) => action matches Action::FetchTemplate {
                    url,
                } && url@ == old(self).document_spec.template_url@,
                (RenderStage::TemplateFetching, Event::TemplateFetched(res)) => match res {
                    Ok(contents) => action matches Action::Render { template_contents }
                        && template_contents@ == contents@,
                    Err(e) => final(self).failure_action_to(action, e),
                },
                (RenderStage::Rendering, Event::Rendered(res)) => match res {
                    Ok(rendered) => action matches Action::WriteTex { path, contents } && path@
                        == old(self).template_path@ && contents@ == rendered@,
                    Err(e) => final(self).failure_action_to(action, e),
                },
                (RenderStage::TexWriting, Event::TexWritten(res)) => match res {
                    Ok(_) => action matches Action::FetchAssets { urls, prefixes } && urls@
                        == old(self).document_spec.assets_urls@ && prefixes is None,
                    Err(e) => final(self).failure_action_to(action, e),
                },
                (RenderStage::AssetsFetching, Event::AssetsFetched(res)) => match res {
                    Ok(_) => action matches Action::RunProcess { call } && call.program@
                        == "xelatex"@ && call.args@.len() == 4 && call.args@[0]@
                        == "-interaction=nonstopmode"@ && call.args@[1]@ == "-file-line-error"@
                        && call.args@[2]@ == "-shell-restricted"@ && call.args@[3]@
                        == old(self).template_path@,
                    Err(e) => final(self).failure_action_to(action, e),
                },
                (RenderStage::Typesetting, Event::ProcessDone { success, output }) => if success {
                    action matches Action::Upload { path, key } && path@ == old(self).output_path@
                        && key@ == old(self).workspace.key_of(
                        old(self).document_spec.output_filename@,
                    )
                } else {
                    action matches Action::PostCallback { url, body } && url@ == old(
                        self,
                    ).document_spec.callback_url@ && body@ == failure_body_text(
                        "LaTeX failed. Stdout:\n"@ + output@,
                        Seq::<Seq<char>>::empty(),
                        old(self).workspace.s3_dir_name@,
                    )
                },
                (RenderStage::Uploading, Event::Uploaded(res)) => match res {
                    Ok(presigned) => action matches Action::PostCallback { url, body } && url@
                        == old(self).document_spec.callback_url@ && body@ == success_body_text(
                        presigned@,
                        old(self).workspace.s3_dir_name@,
                    ),
                    Err(e) => final(self).failure_action_to(action, e),
                },
                (RenderStage::Reporting, Event::CallbackDone { .. }) => action matches
                    Action::UploadTar { dir, key } && dir@ == old(self).workspace.temp_dir@ && key@
                    == old(self).workspace.key_of("workspace.tar"@),
                (RenderStage::TarUpload, Event::TarUploaded { .. }) => action matches
                    Action::Cleanup { dir } && dir@ == old(self).workspace.temp_dir@,
                _ => true,
            },
    {
        let stage = self.stage;
        proof {
            assert(stage == old(self).stage);
        }
        match (stage, event) {
            (RenderStage::Created, Event::Started) => {
                self.stage = RenderStage::TemplateFetching;
                Action::FetchTemplate { url: self.document_spec.template_url.clone() }
            },
            (RenderStage::TemplateFetching, Event::TemplateFetched(res)) => match res {
                Ok(contents) => {
                    self.stage = RenderStage::Rendering;
                    Action::Render { template_contents: contents }
                },
                Err(e) => self.fail_with(e),
            },
            (RenderStage::Rendering, Event::Rendered(res)) => match res {
                Ok(rendered) => {
                    self.stage = RenderStage::TexWriting;
                    Action::WriteTex { path: self.template_path.clone(), contents: rendered }
                },
                Err(e) => self.fail_with(e),
            },
            (RenderStage::TexWriting, Event::TexWritten(res)) => match res {
                Ok(_) => {
                    self.stage = RenderStage::AssetsFetching;
                    let mut urls: Vec<String> = Vec::new();
                    let mut i: usize = 0;
                    while i < self.document_spec.assets_urls.len()
                        invariant
                            0 <= i <= self.document_spec.assets_urls.len(),
                            urls@.len() == i,
                            forall|j: int|
                                0 <= j < i ==> urls@[j] == self.document_spec.assets_urls@[j],
                        decreases self.document_spec.assets_urls.len() - i,
                    {
                        urls.push(self.document_spec.assets_urls[i].clone());
                        i += 1;
                    }
                    proof {
                        assert(urls@ =~= self.document_spec.assets_urls@);
                    }
                    Action::FetchAssets { urls, prefixes: None }
                },
                Err(e) => self.fail_with(e),
            },
            (RenderStage::AssetsFetching, Event::AssetsFetched(res)) => match res {
                Ok(_) => {
                    self.stage = RenderStage::Typesetting;
                    let mut args: Vec<String> = Vec::new();
                    args.push(String::from_str("-interaction=nonstopmode"));
                    args.push(String::from_str("-file-line-error"));
                    args.push(String::from_str("-shell-restricted"));
                    args.push(self.template_path.clone());
                    Action::RunProcess {
                        call: ProcessCall { program: String::from_str("xelatex"), args },
                    }
                },
                Err(e) => self.fail_with(e),
            },
            (RenderStage::Typesetting, Event::ProcessDone { success, output }) => {
                if success {
                    self.stage = RenderStage::Uploading;
                    let key = self.workspace.artifact_key(
                        self.document_spec.output_filename.as_str(),
                    );
                    Action::Upload { path: self.output_path.clone(), key }
                } else {
                    let mut msg = String::from_str("LaTeX failed. Stdout:\n");
                    msg.append(output.as_str());
                    let report = ErrorReport { message: msg, causes: Vec::new() };
                    proof {
                        assert(report.causes.deep_view() =~= Seq::<Seq<char>>::empty());
                    }
                    self.fail_with(report)
                }
            },
            (RenderStage::Uploading, Event::Uploaded(res)) => match res {
                Ok(presigned) => {
                    self.stage = RenderStage::Reporting;
                    let body = success_body(presigned, &self.workspace.s3_dir_name);
                    Action::PostCallback { url: self.document_spec.callback_url.clone(), body }
                },
                Err(e) => self.fail_with(e),
            },
            (RenderStage::Reporting, Event::CallbackDone { .. }) => {
                self.stage = RenderStage::TarUpload;
                let key = self.workspace.tar_key();
                Action::UploadTar { dir: self.workspace.temp_dir.clone(), key }
            },
            (RenderStage::TarUpload, Event::TarUploaded { .. }) => {
                self.stage = RenderStage::Done;
                Action::Cleanup { dir: self.workspace.temp_dir.clone() }
            },
            _ => {
                proof {
                    assert(false);
                }
                Action::Cleanup { dir: String::new() }
            },
        }
    }

    /// What a failure action must look like: the callback POSTed to the
    /// job's callback URL, whose body reports the failure's chain under
    /// the job's prefix.
    pub open spec fn failure_action_to(&self, action: Action, e: ErrorReport) -> bool {
        action matches Action::PostCallback { url, body } && url@
            == self.document_spec.callback_url@ && body@ == failure_body_text(
            e.message@,
            e.causes.deep_view(),
            self.workspace.s3_dir_name@,
        )
    }

    /// Short-circuits to the reporting stage with the failure's callback.
    fn fail_with(&mut self, e: ErrorReport) -> (action: Action)
        ensures
            final(self).stage == RenderStage::Reporting,
            final(self).document_spec == old(self).document_spec,
            final(self).workspace == old(self).workspace,
            final(self).output_path == old(self).output_path,
            final(self).template_path == old(self).template_path,
            final(self).failure_action_to(action, e),
    {
        self.stage = RenderStage::Reporting;
        let body = failure_body(e, &self.workspace.s3_dir_name);
        Action::PostCallback { url: self.document_spec.callback_url.clone(), body }
    }
}

/// Whether the run of a job has reached its reporting stage or passed it.
pub open spec fn reached_reporting(stage: RenderStage) -> bool {
    stage == RenderStage::Reporting || stage == RenderStage::TarUpload || stage
        == RenderStage::Done
}

/// Whether a stage takes this event at all, at the model level.
pub open spec fn render_step_defined(m: RenderModel, e: EventModel) -> bool {
    spec_render_step(m, e).1 is Some
}

/// A well-formed run: each event in turn is one its stage accepts.
pub open spec fn wf_render_events(m: RenderModel, events: Seq<EventModel>) -> bool
    decreases events.len(),
{
    events.len() == 0 || (render_step_defined(m, events[0]) && wf_render_events(
        spec_render_step(m, events[0]).0,
        events.drop_first(),
    ))
}

/// The run of a render job: the final model and every action emitted, in
/// order.
pub open spec fn render_run(m: RenderModel, events: Seq<EventModel>) -> (RenderModel, Seq<
    ActionModel,
>)
    decreases events.len(),
{
    if events.len() == 0 {
        (m, Seq::empty())
    } else {
        let first = spec_render_step(m, events[0]);
        let rest = render_run(first.0, events.drop_first());
        (
            rest.0,
            (match first.1 {
                Some(a) => seq![a],
                None => Seq::empty(),
            }) + rest.1,
        )
    }
}

/// Every step of a run keeps the job's identity: its directory, URLs and
/// names never change, and a run never leaves the reporting path once
/// entered.
proof fn lemma_render_run_fields(m: RenderModel, events: Seq<EventModel>)
    ensures
        ({
            let mf = render_run(m, events).0;
            &&& mf.temp_dir == m.temp_dir
            &&& mf.callback_url == m.callback_url
            &&& mf.s3_dir == m.s3_dir
            &&& mf.asset_count == m.asset_count
            &&& reached_reporting(m.stage) ==> reached_reporting(mf.stage)
        }),
    decreases events.len(),
{
    if events.len() == 0 {
    } else {
        lemma_render_run_fields(spec_render_step(m, events[0]).0, events.drop_first());
    }
}

/// Along any well-formed run, the number of callback POSTs emitted so far
/// is exactly one once the job has reached its reporting stage, and zero
/// before.
proof fn lemma_render_callback_discipline(m: RenderModel, events: Seq<EventModel>)
    requires
        wf_render_events(m, events),
    ensures
        ({
            let r = render_run(m, events);
            callback_count(r.1) + (if reached_reporting(m.stage) {
                1 as nat
            } else {
                0 as nat
            }) == (if reached_reporting(r.0.stage) {
                1 as nat
            } else {
                0 as nat
            })
        }),
    decreases events.len(),
{
    if events.len() == 0 {
    } else {
        let first = spec_render_step(m, events[0]);
        lemma_render_callback_discipline(first.0, events.drop_first());
        let r = render_run(m, events);
        let rest = render_run(first.0, events.drop_first());
        match first.1 {
            Some(a) => {
                assert(r.1 =~= seq![a] + rest.1);
                assert(r.1.drop_first() =~= rest.1);
            },
            None => {
                assert(r.1 =~= rest.1);
            },
        }
    }
}

/// For every accepted job, exactly one callback POST is observed: a
/// well-formed run that takes a fresh render job to `Done` emits exactly
/// one `PostCallback` action.
pub proof fn lemma_render_exactly_one_callback(m: RenderModel, events: Seq<EventModel>)
    requires
        wf_render_events(m, events),
        m.stage == RenderStage::Created,
        render_run(m, events).0.stage == RenderStage::Done,
    ensures
        callback_count(render_run(m, events).1) == 1,
{
    lemma_render_callback_discipline(m, events);
}

/// Along any well-formed run, a removal of the job's directory is emitted
/// exactly on the step that reaches `Done`, and never again: `Done` takes
/// no further event.
proof fn lemma_render_cleanup_discipline(m: RenderModel, events: Seq<EventModel>)
    requires
        wf_render_events(m, events),
    ensures
        ({
            let r = render_run(m, events);
            cleanup_count(r.1) + (if m.stage == RenderStage::Done {
                1 as nat
            } else {
                0 as nat
            }) == (if r.0.stage == RenderStage::Done {
                1 as nat
            } else {
                0 as nat
            })
        }),
    decreases events.len(),
{
    if events.len() == 0 {
    } else {
        let first = spec_render_step(m, events[0]);
        lemma_render_cleanup_discipline(first.0, events.drop_first());
        let r = render_run(m, events);
        let rest = render_run(first.0, events.drop_first());
        match first.1 {
            Some(a) => {
                assert(r.1 =~= seq![a] + rest.1);
                assert(r.1.drop_first() =~= rest.1);
            },
            None => {
                assert(r.1 =~= rest.1);
            },
        }
    }
}

/// For every job, its scratch directory is ordered removed when the job
/// terminates: a well-formed run that takes a fresh render job to `Done`
/// emits exactly one `Cleanup`, of the job's own directory, as its last
/// action.
pub proof fn lemma_render_cleanup_last(m: RenderModel, events: Seq<EventModel>)
    requires
        wf_render_events(m, events),
        m.stage == RenderStage::Created,
        render_run(m, events).0.stage == RenderStage::Done,
    ensures
        cleanup_count(render_run(m, events).1) == 1,
        render_run(m, events).1.len() > 0,
        render_run(m, events).1.last() == (ActionModel::Cleanup { dir: m.temp_dir }),
{
    lemma_render_cleanup_discipline(m, events);
    lemma_render_cleanup_last_from(m, events);
}

/// The last action of any well-formed run that ends at `Done`, started
/// anywhere before `Done`, is the removal of the job's directory.
proof fn lemma_render_cleanup_last_from(m: RenderModel, events: Seq<EventModel>)
    requires
        wf_render_events(m, events),
        m.stage != RenderStage::Done,
        render_run(m, events).0.stage == RenderStage::Done,
    ensures
        render_run(m, events).1.len() > 0,
        render_run(m, events).1.last() == (ActionModel::Cleanup { dir: m.temp_dir }),
    decreases events.len(),
{
    assert(events.len() > 0);
    let first = spec_render_step(m, events[0]);
    let rest = render_run(first.0, events.drop_first());
    let r = render_run(m, events);
    if first.0.stage == RenderStage::Done {
        // The step that reached Done emitted the removal; nothing follows,
        // because Done takes no event.
        assert(first.1 == Some(ActionModel::Cleanup { dir: m.temp_dir }));
        let rest_events = events.drop_first();
        assert(wf_render_events(first.0, rest_events));
        if rest_events.len() > 0 {
            assert(render_step_defined(first.0, rest_events[0]));
            assert(spec_render_step(first.0, rest_events[0]).1 is None);
            assert(false);
        }
        assert(rest.1 =~= Seq::<ActionModel>::empty());
        assert(r.1 =~= seq![ActionModel::Cleanup { dir: m.temp_dir }]);
    } else {
        lemma_render_cleanup_last_from(first.0, events.drop_first());
        assert(first.0.temp_dir == m.temp_dir);
        match first.1 {
            Some(a) => {
                assert(r.1 =~= seq![a] + rest.1);
            },
            None => {
                assert(r.1 =~= rest.1);
            },
        }
        assert(r.1.last() == rest.1.last());
    }
}

} // verus!
