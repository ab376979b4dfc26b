use vstd::prelude::*;
use crate::settings::IrisSettings;
use crate::text::{ends_with, has_prefix, has_suffix, join3, starts_with};

verus! {

/// Directory, inside the working copy, whose presence shows that the build tools are set up.
pub const BUILD_TOOLS_DIR: &'static str = "/build/buildtools/CraftBukkit";

/// File names of built artifacts start with this ...
pub const ARTIFACT_PREFIX: &'static str = "Iris";

/// ... and end with this.
pub const ARTIFACT_EXTENSION: &'static str = ".jar";

/// Directory that installed plugins go to.
pub const PLUGIN_DIR: &'static str = "./plugins/";

/// The stages of the source build, in the order in which they run.
#[derive(Clone, Copy, Debug, PartialEq, Eq, Structural)]
pub enum BuildStage {
    Acquire,
    Sync,
    Dependencies,
    Build,
    Locate,
    Install,
}

/// Why a source build stopped; each variant names the stage that failed.
#[derive(Clone, Copy, Debug, PartialEq, Eq, Structural)]
pub enum BuildError {
    Acquire,
    Sync,
    Dependencies,
    Build,
    ArtifactNotFound,
    Install,
}

/// A file met while searching the working copy for the built artifact.
#[derive(Clone, Debug)]
pub struct FileEntry {
    pub path: String,
    pub file_name: String,
    pub is_file: bool,
}

/// Where the pipeline stands.
#[derive(Clone, Debug)]
pub enum BuildState {
    /// Looking whether the working copy exists.
    CheckCopy,
    Clone,
    Pull,
    /// Looking whether the build tools are set up.
    CheckTools,
    SetupTools,
    /// Looking again, after the setup ran.
    RecheckTools,
    Build,
    Locate,
    /// Removing the installed artifact; the located one is held.
    RemoveOld(String),
    /// Moving the located artifact into place.
    MoveIntoPlace(String),
    Installed,
    Failed(BuildError),
}

/// What the caller reports after it carried out an action: for a check,
/// whether the path exists; for a command, whether it succeeded; for a
/// search, the files that were found.
#[derive(Clone, Debug)]
pub enum BuildEvent {
    Outcome(bool),
    Listed(Vec<FileEntry>),
}

/// What the pipeline asks its caller to do next.
#[derive(Debug)]
pub enum BuildAction {
    CheckWorkingCopy,
    CloneRepository,
    PullRepository,
    CheckBuildTools,
    SetupBuildTools,
    RunBuild,
    ListWorkingCopy,
    RemoveInstalled,
    /// Rename the located artifact at this path to the destination.
    MoveArtifact(String),
    /// Nothing more to do; the pipeline ended with this outcome.
    Stop(Result<(), BuildError>),
}

/// The paths and locations one source build works with.
#[derive(Clone, Debug)]
pub struct BuildPlan {
    pub repo_url: String,
    pub repo_path: String,
    pub tools_path: String,
    pub destination: String,
}

/// Where the plugin with this name is installed.
pub open spec fn plugin_path(name: Seq<char>) -> Seq<char> {
    PLUGIN_DIR@ + name + ARTIFACT_EXTENSION@
}

pub open spec fn is_artifact_name(name: Seq<char>) -> bool {
    has_prefix(name, ARTIFACT_PREFIX@) && has_suffix(name, ARTIFACT_EXTENSION@)
}

pub open spec fn is_artifact_entry(e: FileEntry) -> bool {
    e.is_file && is_artifact_name(e.file_name@)
}

/// Index of the first artifact in `entries` at `k` or after.
pub open spec fn first_artifact_from(entries: Seq<FileEntry>, k: int) -> Option<int>
    decreases entries.len() - k,
{
    if k < 0 || k >= entries.len() {
        None
    } else if is_artifact_entry(entries[k]) {
        Some(k)
    } else {
        first_artifact_from(entries, k + 1)
    }
}

pub open spec fn succeeded(e: BuildEvent) -> bool {
    e matches BuildEvent::Outcome(true)
}

pub open spec fn is_finished(s: BuildState) -> bool {
    s is Installed || s is Failed
}

pub open spec fn stage_of(s: BuildState) -> BuildStage {
    match s {
        BuildState::CheckCopy | BuildState::Clone => BuildStage::Acquire,
        BuildState::Pull => BuildStage::Sync,
        BuildState::CheckTools | BuildState::SetupTools | BuildState::RecheckTools => BuildStage::Dependencies,
        BuildState::Build => BuildStage::Build,
        BuildState::Locate => BuildStage::Locate,
        _ => BuildStage::Install,
    }
}

pub open spec fn stage_rank(st: BuildStage) -> int {
    match st {
        BuildStage::Acquire => 0,
        BuildStage::Sync => 1,
        BuildStage::Dependencies => 2,
        BuildStage::Build => 3,
        BuildStage::Locate => 4,
        BuildStage::Install => 5,
    }
}

pub open spec fn stage_error(st: BuildStage) -> BuildError {
    match st {
        BuildStage::Acquire => BuildError::Acquire,
        BuildStage::Sync => BuildError::Sync,
        BuildStage::Dependencies => BuildError::Dependencies,
        BuildStage::Build => BuildError::Build,
        BuildStage::Locate => BuildError::ArtifactNotFound,
        BuildStage::Install => BuildError::Install,
    }
}

/// The state that follows `s` once the caller reported `e`.
pub open spec fn build_step(s: BuildState, e: BuildEvent) -> BuildState {
    match s {
        BuildState::CheckCopy => if succeeded(e) { BuildState::Pull } else { BuildState::Clone },
        BuildState::Clone => if succeeded(e) {
            BuildState::Pull
        } else {
            BuildState::Failed(BuildError::Acquire)
        },
        BuildState::Pull => if succeeded(e) {
            BuildState::CheckTools
        } else {
            BuildState::Failed(BuildError::Sync)
        },
        BuildState::CheckTools => if succeeded(e) {
            BuildState::Build
        } else {
            BuildState::SetupTools
        },
        BuildState::SetupTools => BuildState::RecheckTools,
        BuildState::RecheckTools => if succeeded(e) {
            BuildState::Build
        } else {
            BuildState::Failed(BuildError::Dependencies)
        },
        BuildState::Build => if succeeded(e) {
            BuildState::Locate
        } else {
            BuildState::Failed(BuildError::Build)
        },
        BuildState::Locate => match e {
            BuildEvent::Listed(entries) => match first_artifact_from(entries@, 0) {
                Some(i) => BuildState::RemoveOld(entries@[i].path),
                None => BuildState::Failed(BuildError::ArtifactNotFound),
            },
            BuildEvent::Outcome(_) => BuildState::Failed(BuildError::ArtifactNotFound),
        },
        BuildState::RemoveOld(src) => if succeeded(e) {
            BuildState::MoveIntoPlace(src)
        } else {
            BuildState::Failed(BuildError::Install)
        },
        BuildState::MoveIntoPlace(_) => if succeeded(e) {
            BuildState::Installed
        } else {
            BuildState::Failed(BuildError::Install)
        },
        BuildState::Installed => BuildState::Installed,
        BuildState::Failed(err) => BuildState::Failed(err),
    }
}

/// What the caller is asked to do in state `s`.
pub open spec fn build_action(s: BuildState) -> BuildAction {
    match s {
        BuildState::CheckCopy => BuildAction::CheckWorkingCopy,
        BuildState::Clone => BuildAction::CloneRepository,
        BuildState::Pull => BuildAction::PullRepository,
        BuildState::CheckTools | BuildState::RecheckTools => BuildAction::CheckBuildTools,
        BuildState::SetupTools => BuildAction::SetupBuildTools,
        BuildState::Build => BuildAction::RunBuild,
        BuildState::Locate => BuildAction::ListWorkingCopy,
        BuildState::RemoveOld(_) => BuildAction::RemoveInstalled,
        BuildState::MoveIntoPlace(src) => BuildAction::MoveArtifact(src),
        BuildState::Installed => BuildAction::Stop(Ok(())),
        BuildState::Failed(err) => BuildAction::Stop(Err(err)),
    }
}

/// The state reached from `s` after the caller reported `events`, in order.
pub open spec fn build_run(s: BuildState, events: Seq<BuildEvent>) -> BuildState
    decreases events.len(),
{
    if events.len() == 0 {
        s
    } else {
        build_run(build_step(s, events[0]), events.drop_first())
    }
}

/// The actions asked for along a run from `s` in which the caller reports `events`.
pub open spec fn build_trace(s: BuildState, events: Seq<BuildEvent>) -> Seq<BuildAction>
    decreases events.len(),
{
    if events.len() == 0 {
        seq![build_action(s)]
    } else {
        seq![build_action(s)] + build_trace(build_step(s, events[0]), events.drop_first())
    }
}

/// Whether the install stage has been entered.
pub open spec fn install_begun(s: BuildState) -> bool {
    s is RemoveOld || s is MoveIntoPlace || s is Installed || s == BuildState::Failed(
        BuildError::Install,
    )
}

/// Whether an action changes what is at the destination.
pub open spec fn touches_destination(a: BuildAction) -> bool {
    a is RemoveInstalled || a is MoveArtifact
}

/// Whether `name` is the file name of a built artifact.
pub fn is_artifact_file_name(name: &str) -> (r: bool)
    ensures
        r == is_artifact_name(name@),
{
    starts_with(name, ARTIFACT_PREFIX) && ends_with(name, ARTIFACT_EXTENSION)
}

/// Index of the first built artifact among `entries`, in the order they were found.
pub fn locate_artifact(entries: &Vec<FileEntry>) -> (r: Option<usize>)
    ensures
        r matches Some(i) ==> i < entries@.len() && first_artifact_from(entries@, 0) == Some(
            i as int,
        ),
        r is None ==> first_artifact_from(entries@, 0) is None,
{
    let mut i: usize = 0;
    while i < entries.len()
        invariant
            i <= entries@.len(),
            first_artifact_from(entries@, 0) == first_artifact_from(entries@, i as int),
        decreases entries@.len() - i,
    {
        let e = &entries[i];
        if e.is_file && is_artifact_file_name(e.file_name.as_str()) {
            return Some(i);
        }
        i = i + 1;
    }
    None
}

impl BuildPlan {
    /// The plan for building the plugin that `settings` describe.
    pub fn from_settings(settings: &IrisSettings) -> (r: BuildPlan)
        ensures
            r.repo_url@ == settings.repo_url@,
            r.repo_path@ == settings.repo_path@,
            r.tools_path@ == settings.repo_path@ + BUILD_TOOLS_DIR@,
            r.destination@ == plugin_path(settings.name@),
    {
        BuildPlan {
            repo_url: settings.repo_url.clone(),
            repo_path: settings.repo_path.clone(),
            tools_path: settings.repo_path.clone().concat(BUILD_TOOLS_DIR),
            destination: join3(PLUGIN_DIR, settings.name.as_str(), ARTIFACT_EXTENSION),
        }
    }
}

/// A source build in progress: the caller performs `action()` and hands its
/// result to `advance`, until the action is `Stop`.
pub struct BuildPipeline {
    pub plan: BuildPlan,
    pub state: BuildState,
}

impl BuildPipeline {
    pub fn new(plan: BuildPlan) -> (r: BuildPipeline)
        ensures
            r.plan == plan,
            r.state == BuildState::CheckCopy,
    {
        BuildPipeline { plan, state: BuildState::CheckCopy }
    }

    pub fn action(&self) -> (r: BuildAction)
        ensures
            r == build_action(self.state),
    {
        match &self.state {
            BuildState::CheckCopy => BuildAction::CheckWorkingCopy,
            BuildState::Clone => BuildAction::CloneRepository,
            BuildState::Pull => BuildAction::PullRepository,
            BuildState::CheckTools => BuildAction::CheckBuildTools,
            BuildState::RecheckTools => BuildAction::CheckBuildTools,
            BuildState::SetupTools => BuildAction::SetupBuildTools,
            BuildState::Build => BuildAction::RunBuild,
            BuildState::Locate => BuildAction::ListWorkingCopy,
            BuildState::RemoveOld(_) => BuildAction::RemoveInstalled,
            BuildState::MoveIntoPlace(src) => BuildAction::MoveArtifact(src.clone()),
            BuildState::Installed => BuildAction::Stop(Ok(())),
            BuildState::Failed(err) => BuildAction::Stop(Err(*err)),
        }
    }

    pub fn is_finished(&self) -> (r: bool)
        ensures
            r == is_finished(self.state),
    {
        matches!(self.state, BuildState::Installed | BuildState::Failed(_))
    }

    /// Takes in what came of the last action.
    pub fn advance(&mut self, e: BuildEvent)
        ensures
            final(self).plan == old(self).plan,
            final(self).state == build_step(old(self).state, e),
    {
        let ok = matches!(e, BuildEvent::Outcome(true));
        let next = match &self.state {
            BuildState::CheckCopy => if ok { BuildState::Pull } else { BuildState::Clone },
            BuildState::Clone => if ok {
                BuildState::Pull
            } else {
                BuildState::Failed(BuildError::Acquire)
            },
            BuildState::Pull => if ok {
                BuildState::CheckTools
            } else {
                BuildState::Failed(BuildError::Sync)
            },
            BuildState::CheckTools => if ok {
                BuildState::Build
            } else {
                BuildState::SetupTools
            },
            BuildState::SetupTools => BuildState::RecheckTools,
            BuildState::RecheckTools => if ok {
                BuildState::Build
            } else {
                BuildState::Failed(BuildError::Dependencies)
            },
            BuildState::Build => if ok {
                BuildState::Locate
            } else {
                BuildState::Failed(BuildError::Build)
            },
            BuildState::Locate => match &e {
                BuildEvent::Listed(entries) => match locate_artifact(entries) {
                    Some(i) => BuildState::RemoveOld(entries[i].path.clone()),
                    None => BuildState::Failed(BuildError::ArtifactNotFound),
                },
                BuildEvent::Outcome(_) => BuildState::Failed(BuildError::ArtifactNotFound),
            },
            BuildState::RemoveOld(src) => if ok {
                BuildState::MoveIntoPlace(src.clone())
            } else {
                BuildState::Failed(BuildError::Install)
            },
            BuildState::MoveIntoPlace(_) => if ok {
                BuildState::Installed
            } else {
                BuildState::Failed(BuildError::Install)
            },
            BuildState::Installed => BuildState::Installed,
            BuildState::Failed(err) => BuildState::Failed(*err),
        };
        self.state = next;
    }
}

proof fn lemma_finished_stays(s: BuildState, events: Seq<BuildEvent>)
    requires
        is_finished(s),
    ensures
        build_run(s, events) == s,
    decreases events.len(),
{
    if events.len() > 0 {
        lemma_finished_stays(build_step(s, events[0]), events.drop_first());
    }
}

proof fn lemma_first_artifact_is_artifact(entries: Seq<FileEntry>, k: int)
    ensures
        first_artifact_from(entries, k) matches Some(i) ==> {
            &&& k <= i < entries.len()
            &&& is_artifact_entry(entries[i])
        },
    decreases entries.len() - k,
{
    if 0 <= k < entries.len() && !is_artifact_entry(entries[k]) {
        lemma_first_artifact_is_artifact(entries, k + 1);
    }
}

/// A failing stage ends the build: the error names the stage that was
/// running, and whatever the caller reports afterwards, the pipeline asks
/// for no further stage and only reports that error.
pub proof fn lemma_abort_at_first_failure(s: BuildState, e: BuildEvent, later: Seq<BuildEvent>)
    requires
        !is_finished(s),
        build_step(s, e) is Failed,
    ensures
        build_step(s, e) == BuildState::Failed(stage_error(stage_of(s))),
        build_run(build_step(s, e), later) == build_step(s, e),
        build_action(build_run(build_step(s, e), later)) == BuildAction::Stop(
            Err(stage_error(stage_of(s))),
        ),
{
    lemma_finished_stays(build_step(s, e), later);
}

/// Stages only move forward: no step goes back to an earlier stage.
pub proof fn lemma_stages_move_forward(s: BuildState, e: BuildEvent)
    requires
        !is_finished(s),
        !is_finished(build_step(s, e)),
    ensures
        stage_rank(stage_of(s)) <= stage_rank(stage_of(build_step(s, e))),
{
}

/// The destination is touched only in the install stage, the last one, and
/// only by removing the old artifact and then renaming into place the file
/// that the search located: nothing writes bytes into the destination.
pub proof fn lemma_install_is_a_rename(s: BuildState, e: BuildEvent)
    ensures
        touches_destination(build_action(s)) ==> stage_of(s) == BuildStage::Install,
        !(s is RemoveOld) ==> (build_step(s, e) matches BuildState::RemoveOld(src) ==> {
            &&& s is Locate
            &&& e matches BuildEvent::Listed(entries) && exists|i: int|
                0 <= i < entries@.len() && is_artifact_entry(entries@[i]) && entries@[i].path
                    == src
        }),
        !(s is MoveIntoPlace) ==> (build_step(s, e) matches BuildState::MoveIntoPlace(src) ==> {
            &&& s == BuildState::RemoveOld(src)
            &&& succeeded(e)
        }),
{
    if let BuildEvent::Listed(entries) = e {
        lemma_first_artifact_is_artifact(entries@, 0);
    }
}

proof fn lemma_install_begun_stays(s: BuildState, events: Seq<BuildEvent>)
    requires
        install_begun(s),
    ensures
        install_begun(build_run(s, events)),
    decreases events.len(),
{
    if events.len() > 0 {
        lemma_install_begun_stays(build_step(s, events[0]), events.drop_first());
    }
}

/// A build that ends in an error of any stage before the install never
/// touched the destination: the artifact installed before stays as it was.
pub proof fn lemma_abort_leaves_destination(s: BuildState, events: Seq<BuildEvent>)
    requires
        build_run(s, events) matches BuildState::Failed(err) && err != BuildError::Install,
    ensures
        forall|i: int|
            0 <= i < build_trace(s, events).len() ==> !touches_destination(
                #[trigger] build_trace(s, events)[i],
            ),
    decreases events.len(),
{
    if install_begun(s) {
        lemma_install_begun_stays(s, events);
    }
    if events.len() > 0 {
        let rest = events.drop_first();
        lemma_abort_leaves_destination(build_step(s, events[0]), rest);
        let tail = build_trace(build_step(s, events[0]), rest);
        assert forall|i: int| 0 <= i < build_trace(s, events).len() implies !touches_destination(
            #[trigger] build_trace(s, events)[i],
        ) by {
            if i > 0 {
                assert(build_trace(s, events)[i] == tail[i - 1]);
            }
        }
    }
}

} // verus!
