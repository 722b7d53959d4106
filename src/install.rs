//! Installing a voice or the engine: a state machine that decides, step by
//! step, what to do next (create the directory, look for the decisive file,
//! fetch the archive, unpack it, remove it, look again). The caller performs
//! each action and reports how it went.

use vstd::prelude::*;
use crate::error::BiboError;
use crate::layout::{join_path, path_join};
use crate::sherpa::{bin_dir_in, download_url_of, executable_in, sherpa_bin_dir, sherpa_download_url, sherpa_tts_path, Platform};
use crate::text::{concat, concat3};
use crate::voice::{lookup, model_file, Voice, VoiceCatalog};

verus! {

/// What is being installed.
#[derive(Clone, Copy, Debug, PartialEq, Eq, Structural)]
pub enum InstallTarget {
    /// A voice model, unpacked into the models directory.
    Voice,
    /// The engine, unpacked into its own directory without the archive's
    /// top-level directory.
    Engine,
}

/// What one installation fetches and where it puts it.
#[derive(Clone, Debug)]
pub struct InstallPlan {
    pub target: InstallTarget,
    /// Name used in messages.
    pub label: String,
    /// Where the archive is published.
    pub url: String,
    /// Directory the archive unpacks into.
    pub dest_dir: String,
    /// Where the archive is kept while it is fetched and unpacked.
    pub archive: String,
    /// The file whose presence means the installation is complete.
    pub decisive: String,
}

/// The paths and address of a plan.
pub struct PlanView {
    pub url: Seq<char>,
    pub dest_dir: Seq<char>,
    pub archive: Seq<char>,
    pub decisive: Seq<char>,
    pub strip: bool,
}

impl PlanView {
    /// The directory, the archive and the decisive file are three
    /// different paths.
    pub open spec fn wf(self) -> bool {
        &&& self.dest_dir != self.archive
        &&& self.dest_dir != self.decisive
        &&& self.archive != self.decisive
    }
}

impl View for InstallPlan {
    type V = PlanView;

    open spec fn view(&self) -> PlanView {
        PlanView {
            url: self.url@,
            dest_dir: self.dest_dir@,
            archive: self.archive@,
            decisive: self.decisive@,
            strip: self.target == InstallTarget::Engine,
        }
    }
}

/// Why an installation failed.
#[derive(Clone, Debug, PartialEq, Eq)]
pub enum InstallFailure {
    /// The destination directory could not be created.
    CreateDir(String),
    /// The archive could not be fetched.
    Fetch(String),
    /// The archive tool failed.
    Extract(String),
    /// The decisive file is absent although unpacking succeeded.
    Missing,
}

/// An [`InstallFailure`] with its texts as sequences.
pub enum FailureView {
    CreateDir(Seq<char>),
    Fetch(Seq<char>),
    Extract(Seq<char>),
    Missing,
}

impl View for InstallFailure {
    type V = FailureView;

    open spec fn view(&self) -> FailureView {
        match self {
            InstallFailure::CreateDir(m) => FailureView::CreateDir(m@),
            InstallFailure::Fetch(m) => FailureView::Fetch(m@),
            InstallFailure::Extract(m) => FailureView::Extract(m@),
            InstallFailure::Missing => FailureView::Missing,
        }
    }
}

/// What the caller is asked to do next.
#[derive(Debug)]
pub enum InstallAction {
    /// Create the directory and its parents.
    CreateDir(String),
    /// Report whether the file exists.
    CheckPresent(String),
    /// Fetch `url` into the file `dest`.
    Fetch { url: String, dest: String },
    /// Unpack the archive into `dest` (see [`tar_args`]).
    Extract { archive: String, dest: String, strip_components: bool },
    /// Remove the file; failures are ignored.
    RemoveFile(String),
    /// Stop: `Ok(true)` when installed now, `Ok(false)` when it already was.
    Finish(Result<bool, InstallFailure>),
}

/// An [`InstallAction`] with its texts as sequences.
pub enum ActionView {
    CreateDir(Seq<char>),
    CheckPresent(Seq<char>),
    Fetch(Seq<char>, Seq<char>),
    Extract(Seq<char>, Seq<char>, bool),
    RemoveFile(Seq<char>),
    Finish(Result<bool, FailureView>),
}

impl View for InstallAction {
    type V = ActionView;

    open spec fn view(&self) -> ActionView {
        match self {
            InstallAction::CreateDir(d) => ActionView::CreateDir(d@),
            InstallAction::CheckPresent(p) => ActionView::CheckPresent(p@),
            InstallAction::Fetch { url, dest } => ActionView::Fetch(url@, dest@),
            InstallAction::Extract { archive, dest, strip_components } => ActionView::Extract(
                archive@,
                dest@,
                *strip_components,
            ),
            InstallAction::RemoveFile(p) => ActionView::RemoveFile(p@),
            InstallAction::Finish(r) => ActionView::Finish(
                match r {
                    Ok(b) => Ok(*b),
                    Err(f) => Err(f@),
                },
            ),
        }
    }
}

/// Where an installation stands.
#[derive(Debug)]
pub enum InstallPhase {
    Begin,
    MakingDir,
    CheckingExisting,
    Fetching,
    /// A fetch failed (with this message); its partial file is being removed.
    DiscardingPartial(String),
    Extracting,
    /// The archive is being removed after unpacking, which failed with the
    /// message if there is one.
    RemovingArchive(Option<String>),
    Verifying,
    Finished,
}

/// An [`InstallPhase`] with its texts as sequences.
pub enum PhaseView {
    Begin,
    MakingDir,
    CheckingExisting,
    Fetching,
    DiscardingPartial(Seq<char>),
    Extracting,
    RemovingArchive(Option<Seq<char>>),
    Verifying,
    Finished,
}

impl View for InstallPhase {
    type V = PhaseView;

    open spec fn view(&self) -> PhaseView {
        match self {
            InstallPhase::Begin => PhaseView::Begin,
            InstallPhase::MakingDir => PhaseView::MakingDir,
            InstallPhase::CheckingExisting => PhaseView::CheckingExisting,
            InstallPhase::Fetching => PhaseView::Fetching,
            InstallPhase::DiscardingPartial(m) => PhaseView::DiscardingPartial(m@),
            InstallPhase::Extracting => PhaseView::Extracting,
            InstallPhase::RemovingArchive(m) => PhaseView::RemovingArchive(
                match m {
                    Some(x) => Some(x@),
                    None => None,
                },
            ),
            InstallPhase::Verifying => PhaseView::Verifying,
            InstallPhase::Finished => PhaseView::Finished,
        }
    }
}

/// How the caller's last action went: `Ok(b)` for success (for a presence
/// check, `b` says whether the file exists), `Err(message)` for failure.
pub open spec fn report_view(ev: Result<bool, String>) -> Result<bool, Seq<char>> {
    match ev {
        Ok(b) => Ok(b),
        Err(m) => Err(m@),
    }
}

/// The transition: from a phase and the report of the last action, the
/// next phase and action. A finished job is not stepped again (its entry
/// here only keeps the function total).
pub open spec fn next(plan: PlanView, phase: PhaseView, ev: Result<bool, Seq<char>>) -> (
    PhaseView,
    ActionView,
) {
    match phase {
        PhaseView::Begin => (PhaseView::MakingDir, ActionView::CreateDir(plan.dest_dir)),
        PhaseView::MakingDir => match ev {
            Ok(_) => (PhaseView::CheckingExisting, ActionView::CheckPresent(plan.decisive)),
            Err(m) => (PhaseView::Finished, ActionView::Finish(Err(FailureView::CreateDir(m)))),
        },
        PhaseView::CheckingExisting => if ev == Ok::<bool, Seq<char>>(true) {
            (PhaseView::Finished, ActionView::Finish(Ok(false)))
        } else {
            (PhaseView::Fetching, ActionView::Fetch(plan.url, plan.archive))
        },
        PhaseView::Fetching => match ev {
            Ok(_) => (
                PhaseView::Extracting,
                ActionView::Extract(plan.archive, plan.dest_dir, plan.strip),
            ),
            Err(m) => (PhaseView::DiscardingPartial(m), ActionView::RemoveFile(plan.archive)),
        },
        PhaseView::DiscardingPartial(m) => (
            PhaseView::Finished,
            ActionView::Finish(Err(FailureView::Fetch(m))),
        ),
        PhaseView::Extracting => match ev {
            Ok(_) => (PhaseView::RemovingArchive(None), ActionView::RemoveFile(plan.archive)),
            Err(m) => (PhaseView::RemovingArchive(Some(m)), ActionView::RemoveFile(plan.archive)),
        },
        PhaseView::RemovingArchive(None) => (
            PhaseView::Verifying,
            ActionView::CheckPresent(plan.decisive),
        ),
        PhaseView::RemovingArchive(Some(m)) => (
            PhaseView::Finished,
            ActionView::Finish(Err(FailureView::Extract(m))),
        ),
        PhaseView::Verifying => if ev == Ok::<bool, Seq<char>>(true) {
            (PhaseView::Finished, ActionView::Finish(Ok(true)))
        } else {
            (PhaseView::Finished, ActionView::Finish(Err(FailureView::Missing)))
        },
        PhaseView::Finished => (PhaseView::Finished, ActionView::Finish(Ok(false))),
    }
}

/// One installation in progress.
pub struct InstallJob {
    plan: InstallPlan,
    phase: InstallPhase,
}

impl InstallJob {
    pub closed spec fn plan_view(&self) -> PlanView {
        self.plan@
    }

    pub closed spec fn phase_view(&self) -> PhaseView {
        self.phase@
    }

    /// A job that has not started yet.
    pub fn new(plan: InstallPlan) -> (r: InstallJob)
        ensures
            r.plan_view() == plan@,
            r.phase_view() == PhaseView::Begin,
    {
        InstallJob { plan, phase: InstallPhase::Begin }
    }

    /// Whether the job has asked to stop.
    pub fn is_finished(&self) -> (r: bool)
        ensures
            r == (self.phase_view() == PhaseView::Finished),
    {
        match self.phase {
            InstallPhase::Finished => true,
            _ => false,
        }
    }

    /// Takes the report of the last action (ignored on the first call) and
    /// returns the next action.
    pub fn step(&mut self, ev: Result<bool, String>) -> (a: InstallAction)
        requires
            old(self).phase_view() != PhaseView::Finished,
        ensures
            final(self).plan_view() == old(self).plan_view(),
            (final(self).phase_view(), a@) == next(
                old(self).plan_view(),
                old(self).phase_view(),
                report_view(ev),
            ),
    {
        let p = &self.plan;
        let strip = match p.target {
            InstallTarget::Engine => true,
            InstallTarget::Voice => false,
        };
        let (phase, action) = match &self.phase {
            InstallPhase::Begin => (
                InstallPhase::MakingDir,
                InstallAction::CreateDir(p.dest_dir.clone()),
            ),
            InstallPhase::MakingDir => match ev {
                Ok(_) => (
                    InstallPhase::CheckingExisting,
                    InstallAction::CheckPresent(p.decisive.clone()),
                ),
                Err(m) => (
                    InstallPhase::Finished,
                    InstallAction::Finish(Err(InstallFailure::CreateDir(m))),
                ),
            },
            InstallPhase::CheckingExisting => match ev {
                Ok(true) => (InstallPhase::Finished, InstallAction::Finish(Ok(false))),
                _ => (
                    InstallPhase::Fetching,
                    InstallAction::Fetch { url: p.url.clone(), dest: p.archive.clone() },
                ),
            },
            InstallPhase::Fetching => match ev {
                Ok(_) => (
                    InstallPhase::Extracting,
                    InstallAction::Extract {
                        archive: p.archive.clone(),
                        dest: p.dest_dir.clone(),
                        strip_components: strip,
                    },
                ),
                Err(m) => (
                    InstallPhase::DiscardingPartial(m),
                    InstallAction::RemoveFile(p.archive.clone()),
                ),
            },
            InstallPhase::DiscardingPartial(m) => (
                InstallPhase::Finished,
                InstallAction::Finish(Err(InstallFailure::Fetch(m.clone()))),
            ),
            InstallPhase::Extracting => match ev {
                Ok(_) => (
                    InstallPhase::RemovingArchive(None),
                    InstallAction::RemoveFile(p.archive.clone()),
                ),
                Err(m) => (
                    InstallPhase::RemovingArchive(Some(m)),
                    InstallAction::RemoveFile(p.archive.clone()),
                ),
            },
            InstallPhase::RemovingArchive(None) => (
                InstallPhase::Verifying,
                InstallAction::CheckPresent(p.decisive.clone()),
            ),
            InstallPhase::RemovingArchive(Some(m)) => (
                InstallPhase::Finished,
                InstallAction::Finish(Err(InstallFailure::Extract(m.clone()))),
            ),
            InstallPhase::Verifying => match ev {
                Ok(true) => (InstallPhase::Finished, InstallAction::Finish(Ok(true))),
                _ => (
                    InstallPhase::Finished,
                    InstallAction::Finish(Err(InstallFailure::Missing)),
                ),
            },
            InstallPhase::Finished => (InstallPhase::Finished, InstallAction::Finish(Ok(false))),
        };
        self.phase = phase;
        action
    }
}

/// The plan that installs voice `v` into the models directory `models`.
pub open spec fn voice_plan(v: Voice, models: Seq<char>) -> PlanView {
    PlanView {
        url: v.download_url@,
        dest_dir: models,
        archive: path_join(models, v.model_dir@ + ".tar.bz2"@),
        decisive: v.file_in(models, model_file()),
        strip: false,
    }
}

/// The plan that installs the engine for `platform` under the tool's
/// directory `root`.
pub open spec fn engine_plan(root: Seq<char>, platform: Platform) -> PlanView {
    PlanView {
        url: download_url_of(platform),
        dest_dir: bin_dir_in(root),
        archive: path_join(bin_dir_in(root), "sherpa_temp.tar.bz2"@),
        decisive: executable_in(root, "sherpa-onnx-offline-tts"@),
        strip: true,
    }
}

proof fn lemma_join(b: Seq<char>, p: Seq<char>)
    ensures
        path_join(b, p).len() >= b.len(),
        p.len() > 0 ==> path_join(b, p).len() > b.len() && path_join(b, p).last() == p.last(),
{
}

/// A voice's plan keeps its directory, archive and model file apart.
pub proof fn lemma_voice_plan_wf(v: Voice, models: Seq<char>)
    ensures
        voice_plan(v, models).wf(),
{
    reveal_strlit(".tar.bz2");
    reveal_strlit("model.onnx");
    let file = v.model_dir@ + ".tar.bz2"@;
    lemma_join(models, file);
    lemma_join(v.dir_in(models), model_file());
    lemma_join(models, v.model_dir@);
    assert(voice_plan(v, models).archive.last() == '2');
    assert(voice_plan(v, models).decisive.last() == 'x');
}

/// The engine's plan keeps its directory, archive and executable apart.
pub proof fn lemma_engine_plan_wf(root: Seq<char>, platform: Platform)
    ensures
        engine_plan(root, platform).wf(),
{
    reveal_strlit("sherpa_temp.tar.bz2");
    reveal_strlit("sherpa-onnx-offline-tts");
    reveal_strlit("bin");
    let b = bin_dir_in(root);
    lemma_join(b, "sherpa_temp.tar.bz2"@);
    lemma_join(b, "bin"@);
    lemma_join(path_join(b, "bin"@), "sherpa-onnx-offline-tts"@);
    assert(engine_plan(root, platform).archive.last() == '2');
    assert(engine_plan(root, platform).decisive.last() == 's');
}

/// Installs voice models.
pub struct VoiceDownloader;

impl VoiceDownloader {
    /// The plan that installs voice `voice_id` into `models_dir`.
    pub fn plan(voice_id: &str, models_dir: &str) -> (r: Result<InstallPlan, BiboError>)
        ensures
            match lookup(voice_id@) {
                None => r matches Err(BiboError::VoiceNotFound(s)) && s@ == voice_id@,
                Some(v) => r matches Ok(p) && p@ == voice_plan(v, models_dir@) && p@.wf()
                    && p.target == InstallTarget::Voice && p.label@ == v.name@,
            },
    {
        let v = match VoiceCatalog::find(voice_id) {
            Some(v) => v,
            None => {
                return Err(BiboError::VoiceNotFound(String::from_str(voice_id)));
            },
        };
        let file = concat(v.model_dir, ".tar.bz2");
        let archive = join_path(models_dir, file.as_str());
        let decisive = v.model_path(models_dir);
        let plan = InstallPlan {
            target: InstallTarget::Voice,
            label: String::from_str(v.name),
            url: String::from_str(v.download_url),
            dest_dir: String::from_str(models_dir),
            archive,
            decisive,
        };
        proof {
            lemma_voice_plan_wf(v, models_dir@);
        }
        Ok(plan)
    }
}

/// Installs the engine.
pub struct SherpaDownloader;

impl SherpaDownloader {
    /// The plan that installs the engine for `platform` under `root`.
    pub fn plan(root: &str, platform: Platform) -> (r: InstallPlan)
        ensures
            r@ == engine_plan(root@, platform),
            r@.wf(),
            r.target == InstallTarget::Engine,
    {
        let dir = sherpa_bin_dir(root);
        let archive = join_path(dir.as_str(), "sherpa_temp.tar.bz2");
        let decisive = sherpa_tts_path(root);
        let plan = InstallPlan {
            target: InstallTarget::Engine,
            label: String::from_str("sherpa-onnx"),
            url: String::from_str(sherpa_download_url(platform)),
            dest_dir: dir,
            archive,
            decisive,
        };
        proof {
            lemma_engine_plan_wf(root@, platform);
        }
        plan
    }

    /// Whether the engine still has to be installed, given whether its
    /// executable exists.
    pub fn needs_download(executable_present: bool) -> (r: bool)
        ensures
            r == !executable_present,
    {
        !executable_present
    }
}

/// The error reported for a failed installation.
pub open spec fn failure_error_is(target: InstallTarget, label: Seq<char>, f: FailureView, e: BiboError) -> bool {
    match f {
        FailureView::CreateDir(m) => e matches BiboError::Other(s) && s@ == (match target {
            InstallTarget::Voice => "Failed to create models dir: "@,
            InstallTarget::Engine => "Failed to create bin dir: "@,
        }) + m,
        FailureView::Fetch(m) => e matches BiboError::DownloadFailed(s) && s@ == label + ": "@ + m,
        FailureView::Extract(m) => e matches BiboError::Other(s) && s@ == "tar extraction failed: "@ + m,
        FailureView::Missing => match target {
            InstallTarget::Voice => e matches BiboError::DownloadFailed(s) && s@
                == "Model file not found after extraction: "@ + label,
            InstallTarget::Engine => e matches BiboError::Other(s) && s@
                == "sherpa-onnx-offline-tts binary not found in extracted archive"@,
        },
    }
}

impl InstallPlan {
    /// The error to report when this installation fails with `f`.
    pub fn error_for(&self, f: &InstallFailure) -> (r: BiboError)
        ensures
            failure_error_is(self.target, self.label@, f@, r),
    {
        match f {
            InstallFailure::CreateDir(m) => match self.target {
                InstallTarget::Voice => BiboError::Other(concat("Failed to create models dir: ", m.as_str())),
                InstallTarget::Engine => BiboError::Other(concat("Failed to create bin dir: ", m.as_str())),
            },
            InstallFailure::Fetch(m) => BiboError::DownloadFailed(concat3(self.label.as_str(), ": ", m.as_str())),
            InstallFailure::Extract(m) => BiboError::Other(concat("tar extraction failed: ", m.as_str())),
            InstallFailure::Missing => match self.target {
                InstallTarget::Voice => BiboError::DownloadFailed(
                    concat("Model file not found after extraction: ", self.label.as_str()),
                ),
                InstallTarget::Engine => BiboError::Other(
                    String::from_str("sherpa-onnx-offline-tts binary not found in extracted archive"),
                ),
            },
        }
    }
}

fn push_arg(v: &mut Vec<String>, s: String)
    ensures
        final(v).deep_view() == old(v).deep_view().push(s@),
{
    v.push(s);
    assert(v.deep_view() =~= old(v).deep_view().push(s@));
}

/// The archive tool's arguments that unpack a bzip2-compressed tar archive
/// into `dest`, dropping the archive's top-level directory if asked.
pub fn tar_args(archive: &str, dest: &str, strip_components: bool) -> (r: Vec<String>)
    ensures
        r.deep_view() == seq!["-xjf"@, archive@, "-C"@, dest@] + (if strip_components {
            seq!["--strip-components=1"@]
        } else {
            Seq::<Seq<char>>::empty()
        }),
{
    let mut v: Vec<String> = Vec::new();
    assert(v.deep_view() =~= Seq::<Seq<char>>::empty());
    push_arg(&mut v, String::from_str("-xjf"));
    push_arg(&mut v, String::from_str(archive));
    push_arg(&mut v, String::from_str("-C"));
    push_arg(&mut v, String::from_str(dest));
    if strip_components {
        push_arg(&mut v, String::from_str("--strip-components=1"));
    }
    assert(v.deep_view() =~= seq!["-xjf"@, archive@, "-C"@, dest@] + (if strip_components {
        seq!["--strip-components=1"@]
    } else {
        Seq::<Seq<char>>::empty()
    }));
    v
}

/// The length that a progress bar counts to: only when not quiet and the
/// server declared a non-zero length.
pub fn progress_total(quiet: bool, content_length: Option<u64>) -> (r: Option<u64>)
    ensures
        r == (match content_length {
            Some(n) => if !quiet && n > 0 { Some(n) } else { None },
            None => None,
        }),
{
    match content_length {
        Some(n) => if !quiet && n > 0 {
            Some(n)
        } else {
            None
        },
        None => None,
    }
}

// ------------------------------------------------------------ simulated runs

/// How the outside world answers a simulated installation.
pub struct World {
    /// Creating the directory succeeds.
    pub dir_ok: bool,
    /// The fetch succeeds (a failed fetch may still leave a partial file).
    pub fetch_ok: bool,
    /// The archive tool succeeds.
    pub extract_ok: bool,
    /// The files unpacking creates (also when it fails part way).
    pub unpacked: Set<Seq<char>>,
}

/// The effect of an action on the set of existing paths, and its report.
pub open spec fn perform(w: World, fs: Set<Seq<char>>, a: ActionView) -> (Set<Seq<char>>, Result<bool, Seq<char>>) {
    match a {
        ActionView::CreateDir(d) => if w.dir_ok {
            (fs.insert(d), Ok(true))
        } else {
            (fs, Err("permission denied"@))
        },
        ActionView::CheckPresent(p) => (fs, Ok(fs.contains(p))),
        ActionView::Fetch(_, dest) => (fs.insert(dest), if w.fetch_ok {
            Ok(true)
        } else {
            Err("connection reset"@)
        }),
        ActionView::Extract(_, _, _) => (fs.union(w.unpacked), if w.extract_ok {
            Ok(true)
        } else {
            Err("corrupt archive"@)
        }),
        ActionView::RemoveFile(p) => (fs.remove(p), Ok(true)),
        ActionView::Finish(_) => (fs, Ok(true)),
    }
}

/// Runs the machine against a simulated world for at most `fuel` actions:
/// the result it finishes with (if it does) and the paths that exist then.
pub open spec fn run(
    plan: PlanView,
    phase: PhaseView,
    ev: Result<bool, Seq<char>>,
    fs: Set<Seq<char>>,
    w: World,
    fuel: nat,
) -> (Option<Result<bool, FailureView>>, Set<Seq<char>>)
    decreases fuel,
{
    if fuel == 0 {
        (None, fs)
    } else {
        let (p2, a) = next(plan, phase, ev);
        match a {
            ActionView::Finish(r) => (Some(r), fs),
            _ => {
                let (fs2, ev2) = perform(w, fs, a);
                run(plan, p2, ev2, fs2, w, (fuel - 1) as nat)
            },
        }
    }
}

/// A simulated installation always finishes within eight actions, and it
/// reports success only when the decisive file exists at the end. Whenever
/// it fetched (every outcome but a failed directory creation or an existing
/// installation) no archive is left, and none is left if none was there
/// before. Starting without the decisive file it never reports "already
/// installed". When fetching and unpacking succeed and the archive holds
/// the decisive file, it is installed; when unpacking succeeds but leaves the
/// decisive file absent, it fails as `Missing`; whenever unpacking leaves
/// the decisive file absent, the installation fails and the file stays
/// absent.
pub proof fn lemma_install_outcome(plan: PlanView, fs: Set<Seq<char>>, w: World)
    requires
        plan.wf(),
    ensures
        ({
            let (r, end) = run(plan, PhaseView::Begin, Ok(true), fs, w, 8);
            &&& r is Some
            &&& r->0 is Ok ==> end.contains(plan.decisive)
            &&& r == Some(Ok::<bool, FailureView>(true)) ==> !end.contains(plan.archive)
            &&& (r->0 is Err && !(r->0->Err_0 is CreateDir)) ==> !end.contains(plan.archive)
            &&& !fs.contains(plan.archive) ==> !end.contains(plan.archive)
            &&& !fs.contains(plan.decisive) ==> r != Some(Ok::<bool, FailureView>(false))
            &&& (w.dir_ok && w.fetch_ok && w.extract_ok && !fs.contains(plan.decisive)
                && w.unpacked.contains(plan.decisive)) ==> r == Some(
                Ok::<bool, FailureView>(true),
            )
            &&& (w.dir_ok && w.fetch_ok && w.extract_ok && !fs.contains(plan.decisive)
                && !w.unpacked.contains(plan.decisive)) ==> r == Some(
                Err::<bool, FailureView>(FailureView::Missing),
            )
            &&& (!fs.contains(plan.decisive) && !w.unpacked.contains(plan.decisive)) ==> (
            r->0 is Err && !end.contains(plan.decisive))
        }),
{
    reveal_with_fuel(run, 9);
}

/// For a voice whose model file is absent: a simulated installation reports
/// success only when the model file exists at the end (so the installed
/// check holds) and no archive is left, and it never reports "already
/// installed". A download and unpacking that succeed with the model file in
/// the archive install the voice; an unpacking that succeeds without it
/// fails as `Missing` (reported as a download failure naming the voice, see
/// `failure_error_is`), leaving neither the model file nor the archive.
pub proof fn lemma_voice_install_outcome(v: Voice, models: Seq<char>, fs: Set<Seq<char>>, w: World)
    requires
        !fs.contains(v.file_in(models, model_file())),
    ensures
        ({
            let plan = voice_plan(v, models);
            let (r, end) = run(plan, PhaseView::Begin, Ok(true), fs, w, 8);
            &&& r is Some
            &&& r != Some(Ok::<bool, FailureView>(false))
            &&& r == Some(Ok::<bool, FailureView>(true)) ==> end.contains(
                v.file_in(models, model_file()),
            ) && !end.contains(plan.archive)
            &&& (w.dir_ok && w.fetch_ok && w.extract_ok && w.unpacked.contains(
                v.file_in(models, model_file()),
            )) ==> r == Some(Ok::<bool, FailureView>(true))
            &&& (w.dir_ok && w.fetch_ok && w.extract_ok && !w.unpacked.contains(
                v.file_in(models, model_file()),
            )) ==> r == Some(Err::<bool, FailureView>(FailureView::Missing)) && !end.contains(
                v.file_in(models, model_file()),
            ) && !end.contains(plan.archive)
        }),
{
    lemma_voice_plan_wf(v, models);
    lemma_install_outcome(voice_plan(v, models), fs, w);
}

} // verus!
