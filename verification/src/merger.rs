//! The merge job: a state machine per merge.
//!
//! A merge job downloads every asset with a fresh unique filename prefix,
//! converts each non-PDF asset to an A4 PDF, unites the PDFs with
//! `pdfunite` in submission order, uploads the result, and posts exactly
//! one callback; whatever happened, it then uploads the workspace tar and
//! removes its directory.

use vstd::prelude::*;
use crate::error::{ErrorReport, EndpointError};
use crate::jobs::{Action, Event, ActionModel, EventModel, ProcessCall, action_model, event_model,
    callback_count, cleanup_count, failure_body, failure_body_text, success_body,
    success_body_text, with_context};
use crate::papers::MergeSpec;
use crate::uri::{last_pos_in, lemma_last_pos_found, lemma_last_pos_none};
use crate::workspace::Workspace;

verus! {

/// The stages of a merge job, in the order a successful run passes them.
/// A failure in any working stage moves straight to `Reporting`.
#[derive(PartialEq, Eq, Structural, Clone, Copy, Debug)]
pub enum MergeStage {
    /// Accepted, not yet started.
    Created,
    /// The assets are being downloaded, concurrently.
    AssetsFetching,
    /// The non-PDF assets are being converted, concurrently.
    Converting,
    /// The `pdfunite` subprocess is running.
    Merging,
    /// The artifact is being uploaded.
    Uploading,
    /// The callback is being posted.
    Reporting,
    /// The workspace tar is being uploaded.
    TarUpload,
    /// The directory is removed; nothing more happens.
    Done,
}

/// Where the final path component of `p` begins: one past its last slash.
pub open spec fn basename_start(p: Seq<char>) -> int {
    match last_pos_in(p, '/', 0, p.len() as int) {
        Some(k) => k + 1,
        None => 0,
    }
}

/// The position of the dot that separates the extension of `p`, if `p`
/// has one: the last dot of the final component, not its first
/// character.
pub open spec fn ext_dot(p: Seq<char>) -> Option<int> {
    match last_pos_in(p, '.', basename_start(p), p.len() as int) {
        Some(k) => if k > basename_start(p) {
            Some(k)
        } else {
            None
        },
        None => None,
    }
}

/// Whether the file at `p` is converted before merging: it has an
/// extension and the extension is not exactly `pdf`.
pub open spec fn spec_needs_conversion(p: Seq<char>) -> bool {
    match ext_dot(p) {
        Some(k) => p.skip(k + 1) != "pdf"@,
        None => false,
    }
}

/// The path the conversion of `p` writes: the extension replaced by
/// `pdf`; a path without an extension stands as it is.
pub open spec fn pdf_target_of(p: Seq<char>) -> Seq<char> {
    match ext_dot(p) {
        Some(k) => p.subrange(0, k) + ".pdf"@,
        None => p,
    }
}

/// The path a downloaded asset contributes to the merge: its conversion's
/// target when it is converted, itself when it is kept.
pub open spec fn spec_planned(p: Seq<char>) -> Seq<char> {
    if spec_needs_conversion(p) {
        pdf_target_of(p)
    } else {
        p
    }
}

/// The dot position and basename start of `p`, computed by scanning.
#[verifier::loop_isolation(false)]
fn find_ext_dot(path: &str) -> (r: Option<usize>)
    ensures
        match ext_dot(path@) {
            Some(k) => r is Some && r->0 == k,
            None => r is None,
        },
        r is Some ==> r->0 < path@.len(),
{
    let n = path.unicode_len();
    let mut bstart: usize = 0;
    let mut last_slash: Option<usize> = None;
    let mut i: usize = 0;
    while i < n
        invariant
            0 <= i <= n,
            match last_slash {
                Some(k) => {
                    &&& 0 <= k < i
                    &&& path@[k as int] == '/'
                    &&& bstart == k + 1
                    &&& forall|j: int| k < j < i ==> path@[j] != '/'
                },
                None => {
                    &&& bstart == 0
                    &&& forall|j: int| 0 <= j < i ==> path@[j] != '/'
                },
            },
        decreases n - i,
    {
        if path.get_char(i) == '/' {
            last_slash = Some(i);
            bstart = i + 1;
        }
        i += 1;
    }
    proof {
        match last_slash {
            Some(k) => {
                lemma_last_pos_found(path@, '/', 0, n as int, k as int);
            },
            None => {
                lemma_last_pos_none(path@, '/', 0, n as int);
            },
        }
        assert(basename_start(path@) == bstart);
    }
    let mut last_dot: Option<usize> = None;
    let mut i2: usize = bstart;
    while i2 < n
        invariant
            bstart <= i2 <= n,
            match last_dot {
                Some(k) => {
                    &&& bstart <= k < i2
                    &&& path@[k as int] == '.'
                    &&& forall|j: int| k < j < i2 ==> path@[j] != '.'
                },
                None => forall|j: int| bstart <= j < i2 ==> path@[j] != '.',
            },
        decreases n - i2,
    {
        if path.get_char(i2) == '.' {
            last_dot = Some(i2);
        }
        i2 += 1;
    }
    proof {
        match last_dot {
            Some(k) => {
                lemma_last_pos_found(path@, '.', bstart as int, n as int, k as int);
            },
            None => {
                lemma_last_pos_none(path@, '.', bstart as int, n as int);
            },
        }
    }
    match last_dot {
        Some(k) => if k > bstart {
            Some(k)
        } else {
            None
        },
        None => None,
    }
}

/// Whether the file at `path` is converted before merging.
pub fn needs_conversion(path: &str) -> (r: bool)
    ensures
        r == spec_needs_conversion(path@),
{
    match find_ext_dot(path) {
        Some(k) => {
            let n = path.unicode_len();
            let ext = crate::text::copy_range(path, k + 1, n);
            proof {
                assert(path@.subrange(k + 1, n as int) =~= path@.skip(k + 1));
            }
            !(ext == String::from_str("pdf"))
        },
        None => false,
    }
}

/// The path the conversion of `path` writes.
pub fn pdf_target(path: &str) -> (r: String)
    ensures
        r@ == pdf_target_of(path@),
{
    match find_ext_dot(path) {
        Some(k) => {
            let mut r = crate::text::copy_range(path, 0, k);
            r.append(".pdf");
            r
        },
        None => String::from_str(path),
    }
}

/// The argument list of one image-to-PDF conversion: the input, the A4
/// sizing options, and the target path.
pub open spec fn convert_argv(input: Seq<char>) -> Seq<Seq<char>> {
    seq![
        input,
        "-resize"@,
        "595x842"@,
        "-gravity"@,
        "center"@,
        "-background"@,
        "white"@,
        "-extent"@,
        "595x842"@,
        "-density"@,
        "72"@,
        "-page"@,
        "A4"@,
        pdf_target_of(input),
    ]
}

/// Builds the `convert` call that turns the file at `input` into an A4
/// PDF beside it.
pub fn convert_call(input: &String) -> (r: ProcessCall)
    ensures
        r.program@ == "convert"@,
        r.args.deep_view() == convert_argv(input@),
{
    let mut args: Vec<String> = Vec::new();
    args.push(input.clone());
    args.push(String::from_str("-resize"));
    args.push(String::from_str("595x842"));
    args.push(String::from_str("-gravity"));
    args.push(String::from_str("center"));
    args.push(String::from_str("-background"));
    args.push(String::from_str("white"));
    args.push(String::from_str("-extent"));
    args.push(String::from_str("595x842"));
    args.push(String::from_str("-density"));
    args.push(String::from_str("72"));
    args.push(String::from_str("-page"));
    args.push(String::from_str("A4"));
    args.push(pdf_target(input.as_str()));
    proof {
        assert(args.deep_view() =~= convert_argv(input@));
    }
    ProcessCall { program: String::from_str("convert"), args }
}

/// The conversions a list of downloaded assets needs, in order: one
/// `convert` argument list per asset whose extension is not `pdf`.
pub open spec fn convert_plan(paths: Seq<Seq<char>>) -> Seq<Seq<Seq<char>>>
    decreases paths.len(),
{
    if paths.len() == 0 {
        Seq::empty()
    } else {
        (if spec_needs_conversion(paths[0]) {
            seq![convert_argv(paths[0])]
        } else {
            Seq::<Seq<Seq<char>>>::empty()
        }) + convert_plan(paths.drop_first())
    }
}

/// The plan distributes over appending one asset at the end.
proof fn lemma_convert_plan_push(paths: Seq<Seq<char>>, p: Seq<char>)
    ensures
        convert_plan(paths.push(p)) == convert_plan(paths) + (if spec_needs_conversion(p) {
            seq![convert_argv(p)]
        } else {
            Seq::<Seq<Seq<char>>>::empty()
        }),
    decreases paths.len(),
{
    if paths.len() == 0 {
        assert(paths.push(p)[0] == p);
        assert(paths.push(p).drop_first() =~= Seq::<Seq<char>>::empty());
        assert(convert_plan(Seq::<Seq<char>>::empty()) == Seq::<Seq<Seq<char>>>::empty());
        assert(convert_plan(paths.push(p)) =~= convert_plan(paths) + (if spec_needs_conversion(
            p,
        ) {
            seq![convert_argv(p)]
        } else {
            Seq::<Seq<Seq<char>>>::empty()
        }));
    } else {
        assert(paths.push(p).drop_first() =~= paths.drop_first().push(p));
        lemma_convert_plan_push(paths.drop_first(), p);
        assert(convert_plan(paths.push(p)) =~= convert_plan(paths) + (if spec_needs_conversion(
            p,
        ) {
            seq![convert_argv(p)]
        } else {
            Seq::<Seq<Seq<char>>>::empty()
        }));
    }
}

/// Appends the output filename to the converted paths in their original
/// order: the argument list handed to `pdfunite`. It holds one argument
/// per asset, plus the output.
pub fn pdfunite_args(inputs: &Vec<String>, output: &String) -> (r: Vec<String>)
    ensures
        r@.len() == inputs@.len() + 1,
        forall|i: int| 0 <= i < inputs@.len() ==> (#[trigger] r@[i])@ == inputs@[i]@,
        r@[r@.len() - 1]@ == output@,
{
    let mut r: Vec<String> = Vec::new();
    let mut i: usize = 0;
    while i < inputs.len()
        invariant
            0 <= i <= inputs.len(),
            r@.len() == i,
            forall|j: int| 0 <= j < i ==> (#[trigger] r@[j])@ == inputs@[j]@,
        decreases inputs.len() - i,
    {
        r.push(inputs[i].clone());
        i += 1;
    }
    r.push(output.clone());
    r
}

/// The ghost model of a merge job.
pub struct MergeModel {
    pub stage: MergeStage,
    pub callback_url: Seq<char>,
    pub asset_count: nat,
    pub temp_dir: Seq<char>,
    pub s3_dir: Seq<char>,
    pub output_path: Seq<char>,
    pub output_filename: Seq<char>,
}

/// The same model at another stage.
pub open spec fn merge_at_stage(m: MergeModel, stage: MergeStage) -> MergeModel {
    MergeModel {
        stage,
        callback_url: m.callback_url,
        asset_count: m.asset_count,
        temp_dir: m.temp_dir,
        s3_dir: m.s3_dir,
        output_path: m.output_path,
        output_filename: m.output_filename,
    }
}

/// The transition table of a merge job, over the model.
pub open spec fn spec_merge_step(m: MergeModel, e: EventModel) -> (MergeModel, Option<
    ActionModel,
>) {
    let fail = (
        merge_at_stage(m, MergeStage::Reporting),
        Some(ActionModel::PostCallback { url: m.callback_url }),
    );
    match (m.stage, e) {
        (MergeStage::Created, EventModel::Started) => (
            merge_at_stage(m, MergeStage::AssetsFetching),
            Some(ActionModel::FetchAssets { count: m.asset_count }),
        ),
        (MergeStage::AssetsFetching, EventModel::AssetsFetched { ok }) => if ok {
            (merge_at_stage(m, MergeStage::Converting), Some(ActionModel::ConvertAll))
        } else {
            fail
        },
        (MergeStage::Converting, EventModel::Converted { ok }) => if ok {
            (
                merge_at_stage(m, MergeStage::Merging),
                Some(
                    ActionModel::RunProcess {
                        program: "pdfunite"@,
                        arg_count: m.asset_count + 1,
                    },
                ),
            )
        } else {
            fail
        },
        (MergeStage::Merging, EventModel::ProcessDone { success }) => if success {
            (
                merge_at_stage(m, MergeStage::Uploading),
                Some(
                    ActionModel::Upload {
                        path: m.output_path,
                        key: m.s3_dir + seq!['/'] + m.output_filename,
                    },
                ),
            )
        } else {
            fail
        },
        (MergeStage::Uploading, EventModel::Uploaded { ok }) => if ok {
            (
                merge_at_stage(m, MergeStage::Reporting),
                Some(ActionModel::PostCallback { url: m.callback_url }),
            )
        } else {
            fail
        },
        (MergeStage::Reporting, EventModel::CallbackDone) => (
            merge_at_stage(m, MergeStage::TarUpload),
            Some(
                ActionModel::UploadTar {
                    dir: m.temp_dir,
                    key: m.s3_dir + seq!['/'] + "workspace.tar"@,
                },
            ),
        ),
        (MergeStage::TarUpload, EventModel::TarUploaded) => (
            merge_at_stage(m, MergeStage::Done),
            Some(ActionModel::Cleanup { dir: m.temp_dir }),
        ),
        _ => (m, None),
    }
}

/// The merger: the manifest of one merge job and where that job stands.
pub struct Merger {
    /// The blueprint for the merged document.
    pub merge_spec: MergeSpec,
    /// The job's scratch directory and object-store prefix.
    pub workspace: Workspace,
    /// The path of the merged file.
    pub output_path: String,
    /// The paths handed to `pdfunite`, in submission order; filled when
    /// the downloads finish.
    pub planned_paths: Vec<String>,
    /// Where the job stands.
    pub stage: MergeStage,
}

impl Merger {
    /// The ghost model of this job.
    pub open spec fn model(&self) -> MergeModel {
        MergeModel {
            stage: self.stage,
            callback_url: self.merge_spec.callback_url@,
            asset_count: self.merge_spec.assets_urls.len() as nat,
            temp_dir: self.workspace.temp_dir@,
            s3_dir: self.workspace.s3_dir_name@,
            output_path: self.output_path@,
            output_filename: self.merge_spec.output_filename@,
        }
    }

    /// The paths handed on to `pdfunite` match the assets, one each, once
    /// the downloads have finished.
    pub open spec fn inv(&self) -> bool {
        (self.stage == MergeStage::Converting || self.stage == MergeStage::Merging)
            ==> self.planned_paths.len() == self.merge_spec.assets_urls.len()
    }

    /// A fresh merge job over the given workspace. The merged document
    /// lands under the spec's output filename.
    pub fn new(merge_spec: MergeSpec, workspace: Workspace) -> (r: Merger)
        ensures
            r.stage == MergeStage::Created,
            r.merge_spec == merge_spec,
            r.workspace == workspace,
            r.output_path@ == r.workspace.path_of(merge_spec.output_filename@),
            r.inv(),
    {
        let output_path = workspace.dest_path(merge_spec.output_filename.as_str());
        Merger {
            merge_spec,
            workspace,
            output_path,
            planned_paths: Vec::new(),
            stage: MergeStage::Created,
        }
    }

    /// Which events this job can take now.
    pub open spec fn accepts(&self, e: Event) -> bool {
        match (self.stage, e) {
            (MergeStage::Created, Event::Started) => true,
            (MergeStage::AssetsFetching, Event::AssetsFetched(r)) => r is Ok ==> r->Ok_0.len()
                == self.merge_spec.assets_urls.len(),
            (MergeStage::Converting, Event::Converted(_)) => true,
            (MergeStage::Merging, Event::ProcessDone { .. }) => true,
            (MergeStage::Uploading, Event::Uploaded(_)) => true,
            (MergeStage::Reporting, Event::CallbackDone { .. }) => true,
            (MergeStage::TarUpload, Event::TarUploaded { .. }) => true,
            _ => false,
        }
    }

    /// Takes one event and moves the job one stage on, handing back the
    /// next action. The transition is the model's; the action's payloads
    /// are pinned below, case by case.
    #[verifier::rlimit(100)]
    pub fn step(&mut self, event: Event) -> (action: Action)
        requires
            old(self).accepts(event),
            old(self).inv(),
        ensures
            ({
                let (m2, am) = spec_merge_step(old(self).model(), event_model(event));
                final(self).model() == m2 && am == Some(action_model(action))
            }),
            final(self).inv(),
            final(self).merge_spec == old(self).merge_spec,
            final(self).workspace == old(self).workspace,
            final(self).output_path == old(self).output_path,
            match (old(self).stage, event) {
                (MergeStage::Created, Event::Started) => action matches Action::FetchAssets {
                    urls,
                    prefixes,
                } && urls@ == old(self).merge_spec.assets_urls@ && (prefixes matches Some(ps)
                    && ps.len() == urls.len() && (forall|i: int|
                    0 <= i < ps@.len() ==> (#[trigger] ps@[i])@.len() == 36)),
                (MergeStage::AssetsFetching, Event::AssetsFetched(res)) => match res {
                    Ok(paths) => (action matches Action::ConvertAll { calls } && {
                        &&& calls@.len() == convert_plan(paths.deep_view()).len()
                        &&& forall|i: int|
                            0 <= i < calls@.len() ==> (#[trigger] calls@[i]).program@
                                == "convert"@ && calls@[i].args.deep_view() == convert_plan(
                                paths.deep_view(),
                            )[i]
                    }) && final(self).planned_paths@.len() == paths@.len() && (forall|i: int|
                        0 <= i < paths@.len() ==> (#[trigger] final(self).planned_paths@[i])@
                            == spec_planned(paths@[i]@)),
                    Err(e) => final(self).failure_action_to(
                        action,
                        "Error downloading assets."@,
                        e,
                    ),
                },
                (MergeStage::Converting, Event::Converted(res)) => match res {
                    Ok(_) => action matches Action::RunProcess { call } && call.program@
                        == "pdfunite"@ && call.args@.len() == old(self).planned_paths@.len() + 1
                        && (forall|i: int|
                        0 <= i < old(self).planned_paths@.len() ==> (#[trigger] call.args@[i])@
                            == old(self).planned_paths@[i]@) && call.args@[call.args@.len() - 1]@
                        == old(self).merge_spec.output_filename@,
                    Err(e) => final(self).failure_action_to(
                        action,
                        "Error converting asset file to PDF."@,
                        e,
                    ),
                },
                (MergeStage::Merging, Event::ProcessDone { success, output }) => if success {
                    action matches Action::Upload { path, key } && path@ == old(self).output_path@
                        && key@ == old(self).workspace.key_of(
                        old(self).merge_spec.output_filename@,
                    )
                } else {
                    action matches Action::PostCallback { url, body } && url@ == old(
                        self,
                    ).merge_spec.callback_url@ && body@ == failure_body_text(
                        "Error merging the PDFs."@,
                        seq!["Merge failed. pdfunite output:\n"@ + output@],
                        old(self).workspace.s3_dir_name@,
                    )
                },
                (MergeStage::Uploading, Event::Uploaded(res)) => match res {
                    Ok(presigned) => action matches Action::PostCallback { url, body } && url@
                        == old(self).merge_spec.callback_url@ && body@ == success_body_text(
                        presigned@,
                        old(self).workspace.s3_dir_name@,
                    ),
                    Err(e) => action matches Action::PostCallback { url, body } && url@ == old(
                        self,
                    ).merge_spec.callback_url@ && body@ == failure_body_text(
                        e.message@,
                        e.causes.deep_view(),
                        old(self).workspace.s3_dir_name@,
                    ),
                },
                (MergeStage::Reporting, Event::CallbackDone { .. }) => action matches
                    Action::UploadTar { dir, key } && dir@ == old(self).workspace.temp_dir@ && key@
                    == old(self).workspace.key_of("workspace.tar"@),
                (MergeStage::TarUpload, Event::TarUploaded { .. }) => action matches
                    Action::Cleanup { dir } && dir@ == old(self).workspace.temp_dir@,
                _ => true,
            },
    {
        match (self.stage, event) {
            (MergeStage::Created, Event::Started) => {
                self.stage = MergeStage::AssetsFetching;
                let mut urls: Vec<String> = Vec::new();
                let mut prefixes: Vec<String> = Vec::new();
                let mut i: usize = 0;
                while i < self.merge_spec.assets_urls.len()
                    invariant
                        0 <= i <= self.merge_spec.assets_urls.len(),
                        urls@.len() == i,
                        prefixes@.len() == i,
                        forall|j: int|
                            0 <= j < i ==> urls@[j] == self.merge_spec.assets_urls@[j],
                        forall|j: int| 0 <= j < i ==> (#[trigger] prefixes@[j])@.len() == 36,
                    decreases self.merge_spec.assets_urls.len() - i,
                {
                    urls.push(self.merge_spec.assets_urls[i].clone());
                    prefixes.push(crate::workspace::fresh_uuid());
                    i += 1;
                }
                proof {
                    assert(urls@ =~= self.merge_spec.assets_urls@);
                }
                Action::FetchAssets { urls, prefixes: Some(prefixes) }
            },
            (MergeStage::AssetsFetching, Event::AssetsFetched(res)) => match res {
                Ok(paths) => {
                    self.stage = MergeStage::Converting;
                    let mut calls: Vec<ProcessCall> = Vec::new();
                    let mut planned: Vec<String> = Vec::new();
                    let mut i: usize = 0;
                    proof {
                        assert(paths.deep_view().subrange(0, 0) =~= Seq::<Seq<char>>::empty());
                        assert(convert_plan(Seq::<Seq<char>>::empty()) == Seq::<
                            Seq<Seq<char>>,
                        >::empty());
                    }
                    while i < paths.len()
                        invariant
                            0 <= i <= paths.len(),
                            planned@.len() == i,
                            forall|j: int|
                                0 <= j < i ==> (#[trigger] planned@[j])@ == spec_planned(
                                    paths@[j]@,
                                ),
                            calls@.len() == convert_plan(
                                paths.deep_view().subrange(0, i as int),
                            ).len(),
                            forall|j: int|
                                0 <= j < calls@.len() ==> (#[trigger] calls@[j]).program@
                                    == "convert"@ && calls@[j].args.deep_view() == convert_plan(
                                    paths.deep_view().subrange(0, i as int),
                                )[j],
                        decreases paths.len() - i,
                    {
                        let ghost prefix = paths.deep_view().subrange(0, i as int);
                        proof {
                            lemma_convert_plan_push(prefix, paths.deep_view()[i as int]);
                            assert(paths.deep_view().subrange(0, i + 1) =~= prefix.push(
                                paths.deep_view()[i as int],
                            ));
                        }
                        if needs_conversion(paths[i].as_str()) {
                            let target = pdf_target(paths[i].as_str());
                            calls.push(convert_call(&paths[i]));
                            planned.push(target);
                        } else {
                            planned.push(paths[i].clone());
                        }
                        i += 1;
                    }
                    proof {
                        assert(paths.deep_view().subrange(0, paths@.len() as int)
                            =~= paths.deep_view());
                    }
                    self.planned_paths = planned;
                    Action::ConvertAll { calls }
                },
                Err(e) => {
                    let wrapped = with_context("Error downloading assets.", e);
                    self.fail_with(wrapped)
                },
            },
            (MergeStage::Converting, Event::Converted(res)) => match res {
                Ok(_) => {
                    self.stage = MergeStage::Merging;
                    let args = pdfunite_args(&self.planned_paths, &self.merge_spec.output_filename);
                    Action::RunProcess {
                        call: ProcessCall { program: String::from_str("pdfunite"), args },
                    }
                },
                Err(e) => {
                    let wrapped = with_context("Error converting asset file to PDF.", e);
                    self.fail_with(wrapped)
                },
            },
            (MergeStage::Merging, Event::ProcessDone { success, output }) => {
                if success {
                    self.stage = MergeStage::Uploading;
                    let key = self.workspace.artifact_key(
                        self.merge_spec.output_filename.as_str(),
                    );
                    Action::Upload { path: self.output_path.clone(), key }
                } else {
                    let mut msg = String::from_str("Merge failed. pdfunite output:\n");
                    msg.append(output.as_str());
                    let inner = ErrorReport { message: msg, causes: Vec::new() };
                    let wrapped = with_context("Error merging the PDFs.", inner);
                    proof {
                        assert(wrapped.causes.deep_view() =~= seq![
                            "Merge failed. pdfunite output:\n"@ + output@,
                        ]);
                    }
                    self.fail_with(wrapped)
                }
            },
            (MergeStage::Uploading, Event::Uploaded(res)) => match res {
                Ok(presigned) => {
                    self.stage = MergeStage::Reporting;
                    let body = success_body(presigned, &self.workspace.s3_dir_name);
                    Action::PostCallback { url: self.merge_spec.callback_url.clone(), body }
                },
                Err(e) => self.fail_with(e),
            },
            (MergeStage::Reporting, Event::CallbackDone { .. }) => {
                self.stage = MergeStage::TarUpload;
                let key = self.workspace.tar_key();
                Action::UploadTar { dir: self.workspace.temp_dir.clone(), key }
            },
            (MergeStage::TarUpload, Event::TarUploaded { .. }) => {
                self.stage = MergeStage::Done;
                Action::Cleanup { dir: self.workspace.temp_dir.clone() }
            },
            _ => {
                proof {
                    assert(false);
                }
                Action::Cleanup { dir: String::new() }
            },
        }
    }

    /// What a failure action must look like when the failure is wrapped
    /// under a context line: the callback POSTed to the job's callback
    /// URL, whose body reports the context and the chain under it.
    pub open spec fn failure_action_to(
        &self,
        action: Action,
        context: Seq<char>,
        e: ErrorReport,
    ) -> bool {
        action matches Action::PostCallback { url, body } && url@ == self.merge_spec.callback_url@
            && body@ == failure_body_text(
            context,
            seq![e.message@] + e.causes.deep_view(),
            self.workspace.s3_dir_name@,
        )
    }

    /// Short-circuits to the reporting stage with the failure's callback.
    fn fail_with(&mut self, e: ErrorReport) -> (action: Action)
        ensures
            final(self).stage == MergeStage::Reporting,
            final(self).merge_spec == old(self).merge_spec,
            final(self).workspace == old(self).workspace,
            final(self).output_path == old(self).output_path,
            final(self).planned_paths == old(self).planned_paths,
            action matches Action::PostCallback { url, body } && url@ == old(
                self,
            ).merge_spec.callback_url@ && body@ == failure_body_text(
                e.message@,
                e.causes.deep_view(),
                old(self).workspace.s3_dir_name@,
            ),
    {
        self.stage = MergeStage::Reporting;
        let body = failure_body(e, &self.workspace.s3_dir_name);
        Action::PostCallback { url: self.merge_spec.callback_url.clone(), body }
    }
}

/// Whether the run of a merge job has reached its reporting stage or
/// passed it.
pub open spec fn merge_reached_reporting(stage: MergeStage) -> bool {
    stage == MergeStage::Reporting || stage == MergeStage::TarUpload || stage == MergeStage::Done
}

/// Whether a stage takes this event at all, at the model level.
pub open spec fn merge_step_defined(m: MergeModel, e: EventModel) -> bool {
    spec_merge_step(m, e).1 is Some
}

/// A well-formed run: each event in turn is one its stage accepts.
pub open spec fn wf_merge_events(m: MergeModel, events: Seq<EventModel>) -> bool
    decreases events.len(),
{
    events.len() == 0 || (merge_step_defined(m, events[0]) && wf_merge_events(
        spec_merge_step(m, events[0]).0,
        events.drop_first(),
    ))
}

/// The run of a merge job: the final model and every action emitted, in
/// order.
pub open spec fn merge_run(m: MergeModel, events: Seq<EventModel>) -> (MergeModel, Seq<
    ActionModel,
>)
    decreases events.len(),
{
    if events.len() == 0 {
        (m, Seq::empty())
    } else {
        let first = spec_merge_step(m, events[0]);
        let rest = merge_run(first.0, events.drop_first());
        (
            rest.0,
            (match first.1 {
                Some(a) => seq![a],
                None => Seq::empty(),
            }) + rest.1,
        )
    }
}

/// Along any well-formed run, the number of callback POSTs emitted so far
/// is exactly one once the job has reached its reporting stage, and zero
/// before.
proof fn lemma_merge_callback_discipline(m: MergeModel, events: Seq<EventModel>)
    requires
        wf_merge_events(m, events),
    ensures
        ({
            let r = merge_run(m, events);
            callback_count(r.1) + (if merge_reached_reporting(m.stage) {
                1 as nat
            } else {
                0 as nat
            }) == (if merge_reached_reporting(r.0.stage) {
                1 as nat
            } else {
                0 as nat
            })
        }),
    decreases events.len(),
{
    if events.len() == 0 {
    } else {
        let first = spec_merge_step(m, events[0]);
        lemma_merge_callback_discipline(first.0, events.drop_first());
        let r = merge_run(m, events);
        let rest = merge_run(first.0, events.drop_first());
        match first.1 {
            Some(a) => {
                assert(r.1 =~= seq![a] + rest.1);
                assert(r.1.drop_first() =~= rest.1);
            },
            None => {
                assert(r.1 =~= rest.1);
            },
        }
    }
}

/// For every accepted merge, exactly one callback POST is observed: a
/// well-formed run that takes a fresh merge job to `Done` emits exactly
/// one `PostCallback` action.
pub proof fn lemma_merge_exactly_one_callback(m: MergeModel, events: Seq<EventModel>)
    requires
        wf_merge_events(m, events),
        m.stage == MergeStage::Created,
        merge_run(m, events).0.stage == MergeStage::Done,
    ensures
        callback_count(merge_run(m, events).1) == 1,
{
    lemma_merge_callback_discipline(m, events);
}

/// Along any well-formed run, a removal of the job's directory is emitted
/// exactly on the step that reaches `Done`.
proof fn lemma_merge_cleanup_discipline(m: MergeModel, events: Seq<EventModel>)
    requires
        wf_merge_events(m, events),
    ensures
        ({
            let r = merge_run(m, events);
            cleanup_count(r.1) + (if m.stage == MergeStage::Done {
                1 as nat
            } else {
                0 as nat
            }) == (if r.0.stage == MergeStage::Done {
                1 as nat
            } else {
                0 as nat
            })
        }),
    decreases events.len(),
{
    if events.len() == 0 {
    } else {
        let first = spec_merge_step(m, events[0]);
        lemma_merge_cleanup_discipline(first.0, events.drop_first());
        let r = merge_run(m, events);
        let rest = merge_run(first.0, events.drop_first());
        match first.1 {
            Some(a) => {
                assert(r.1 =~= seq![a] + rest.1);
                assert(r.1.drop_first() =~= rest.1);
            },
            None => {
                assert(r.1 =~= rest.1);
            },
        }
    }
}

/// For every merge job, its scratch directory is ordered removed when the
/// job terminates: a well-formed run that takes a fresh merge job to
/// `Done` emits exactly one `Cleanup`, of the job's own directory, as its
/// last action.
pub proof fn lemma_merge_cleanup_last(m: MergeModel, events: Seq<EventModel>)
    requires
        wf_merge_events(m, events),
        m.stage == MergeStage::Created,
        merge_run(m, events).0.stage == MergeStage::Done,
    ensures
        cleanup_count(merge_run(m, events).1) == 1,
        merge_run(m, events).1.len() > 0,
        merge_run(m, events).1.last() == (ActionModel::Cleanup { dir: m.temp_dir }),
{
    lemma_merge_cleanup_discipline(m, events);
    lemma_merge_cleanup_last_from(m, events);
}

/// The last action of any well-formed run that ends at `Done`, started
/// anywhere before `Done`, is the removal of the job's directory.
proof fn lemma_merge_cleanup_last_from(m: MergeModel, events: Seq<EventModel>)
    requires
        wf_merge_events(m, events),
        m.stage != MergeStage::Done,
        merge_run(m, events).0.stage == MergeStage::Done,
    ensures
        merge_run(m, events).1.len() > 0,
        merge_run(m, events).1.last() == (ActionModel::Cleanup { dir: m.temp_dir }),
    decreases events.len(),
{
    assert(events.len() > 0);
    let first = spec_merge_step(m, events[0]);
    let rest = merge_run(first.0, events.drop_first());
    let r = merge_run(m, events);
    if first.0.stage == MergeStage::Done {
        assert(first.1 == Some(ActionModel::Cleanup { dir: m.temp_dir }));
        let rest_events = events.drop_first();
        assert(wf_merge_events(first.0, rest_events));
        if rest_events.len() > 0 {
            assert(merge_step_defined(first.0, rest_events[0]));
            assert(spec_merge_step(first.0, rest_events[0]).1 is None);
            assert(false);
        }
        assert(rest.1 =~= Seq::<ActionModel>::empty());
        assert(r.1 =~= seq![ActionModel::Cleanup { dir: m.temp_dir }]);
    } else {
        lemma_merge_cleanup_last_from(first.0, events.drop_first());
        assert(first.0.temp_dir == m.temp_dir);
        match first.1 {
            Some(a) => {
                assert(r.1 =~= seq![a] + rest.1);
            },
            None => {
                assert(r.1 =~= rest.1);
            },
        }
        assert(r.1.last() == rest.1.last());
    }
}

/// For any merge, the union subprocess takes one argument per asset plus
/// the output: every `RunProcess` action of a well-formed run is the
/// `pdfunite` call, with the job's asset count plus one arguments.
pub proof fn lemma_merge_pdfunite_arg_count(m: MergeModel, events: Seq<EventModel>)
    requires
        wf_merge_events(m, events),
    ensures
        forall|i: int|
            0 <= i < merge_run(m, events).1.len() ==> ((#[trigger] merge_run(m, events).1[i])
                matches ActionModel::RunProcess { program, arg_count } ==> program == "pdfunite"@
                && arg_count == m.asset_count + 1),
    decreases events.len(),
{
    if events.len() == 0 {
    } else {
        let first = spec_merge_step(m, events[0]);
        lemma_merge_pdfunite_arg_count(first.0, events.drop_first());
        assert(first.0.asset_count == m.asset_count);
        let r = merge_run(m, events);
        let rest = merge_run(first.0, events.drop_first());
        match first.1 {
            Some(a) => {
                assert(r.1 =~= seq![a] + rest.1);
                assert forall|i: int| 0 <= i < r.1.len() implies ((#[trigger] r.1[i]) matches
                    ActionModel::RunProcess { program, arg_count } ==> program == "pdfunite"@
                    && arg_count == m.asset_count + 1) by {
                    if i > 0 {
                        assert(r.1[i] == rest.1[i - 1]);
                    }
                }
            },
            None => {
                assert(r.1 =~= rest.1);
            },
        }
    }
}

} // verus!
