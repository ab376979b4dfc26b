use vstd::prelude::*;
use crate::pipeline::{plugin_path, BuildPlan, ARTIFACT_EXTENSION, BUILD_TOOLS_DIR, PLUGIN_DIR};
use crate::settings::{PluginSettings, Settings};
use crate::sync::ArtifactSpec;
use crate::text::join3;

verus! {

/// The marker file that records acceptance of the server's licence.
pub const EULA_FILE: &'static str = "eula.txt";

/// What the marker file holds.
pub const EULA_CONTENTS: &'static str = "eula=true";

/// The switches given on the command line.
#[derive(Clone, Copy, Debug, PartialEq, Eq, Structural)]
pub struct Flags {
    /// Update everything.
    pub update: bool,
    /// Clean up this time, whatever the settings say.
    pub clean: bool,
    /// Clean up, and do nothing else.
    pub excl_clean: bool,
    /// Remove every ignored file, and do nothing else.
    pub deep_excl_clean: bool,
    pub update_iris: bool,
    pub update_server: bool,
    pub update_plugins: bool,
}

/// What one invocation of the program does.
#[derive(Clone, Copy, Debug, PartialEq, Eq, Structural)]
pub enum RunMode {
    /// Deep clean, then exit.
    DeepClean,
    /// Clean, then exit.
    CleanOnly,
    /// Update everything, then run the server for good.
    Supervise,
}

/// The work of one task.
#[derive(Clone, Debug)]
pub enum TaskKind {
    /// Keep a downloaded artifact up to date; the flag forces the download.
    Download(ArtifactSpec, bool),
    /// Write the licence marker if it is missing.
    Eula,
    /// Build the plugin from source when the flag is set.
    SourceBuild(BuildPlan, bool),
    /// Clean up when the flag is set.
    Clean(bool),
}

/// A task with the name it is reported under.
#[derive(Clone, Debug)]
pub struct PlannedTask {
    pub name: String,
    pub kind: TaskKind,
}

pub open spec fn mode_of(flags: Flags) -> RunMode {
    if flags.deep_excl_clean {
        RunMode::DeepClean
    } else if flags.excl_clean {
        RunMode::CleanOnly
    } else {
        RunMode::Supervise
    }
}

pub open spec fn enabled_plugins(plugins: Seq<PluginSettings>) -> Seq<PluginSettings> {
    plugins.filter(|p: PluginSettings| p.enabled)
}

/// `t` keeps the artifact that `source` is fetched from up to date at `destination`.
pub open spec fn is_download_task(
    t: PlannedTask,
    name: Seq<char>,
    source: Seq<char>,
    destination: Seq<char>,
    force: bool,
) -> bool {
    &&& t.name@ == name
    &&& t.kind matches TaskKind::Download(a, f) && {
        &&& a.identity@ == name
        &&& a.enabled
        &&& a.source_url@ == source
        &&& a.destination@ == destination
        &&& f == force
    }
}

pub open spec fn is_plugin_task(t: PlannedTask, p: PluginSettings, force: bool) -> bool {
    is_download_task(t, p.name@, p.download_url@, plugin_path(p.name@), force)
}

/// The tasks of one update round, in order: the server, the licence marker,
/// each enabled plugin, the plugin built from source, the cleanup.
pub open spec fn is_task_plan(r: Seq<PlannedTask>, s: Settings, flags: Flags) -> bool {
    let plugins = enabled_plugins(s.plugins@);
    let k = plugins.len() as int;
    &&& r.len() == k + 4
    &&& is_download_task(
        r[0],
        "Server"@,
        s.server.download_url@,
        s.server.name@,
        flags.update || flags.update_server,
    )
    &&& r[1].name@ == "EULA"@ && r[1].kind is Eula
    &&& forall|j: int|
        0 <= j < k ==> is_plugin_task(
            #[trigger] r[j + 2],
            plugins[j],
            flags.update || flags.update_plugins,
        )
    &&& r[k + 2].name@ == "Iris"@
    &&& r[k + 2].kind matches TaskKind::SourceBuild(plan, run) && {
        &&& plan.repo_url@ == s.iris.repo_url@
        &&& plan.repo_path@ == s.iris.repo_path@
        &&& plan.tools_path@ == s.iris.repo_path@ + BUILD_TOOLS_DIR@
        &&& plan.destination@ == plugin_path(s.iris.name@)
        &&& run == (s.iris.enabled || flags.update || flags.update_iris)
    }
    &&& r[k + 3].name@ == "Clean"@
    &&& r[k + 3].kind == TaskKind::Clean(flags.clean || s.clean.enabled)
}

/// Which of the three things this invocation does; a deep clean wins over a plain one.
pub fn run_mode(flags: &Flags) -> (r: RunMode)
    ensures
        r == mode_of(*flags),
{
    if flags.deep_excl_clean {
        RunMode::DeepClean
    } else if flags.excl_clean {
        RunMode::CleanOnly
    } else {
        RunMode::Supervise
    }
}

fn download_task(name: &str, source: &String, destination: String, force: bool) -> (r:
    PlannedTask)
    ensures
        is_download_task(r, name@, source@, destination@, force),
{
    let spec = ArtifactSpec {
        identity: name.to_string(),
        enabled: true,
        source_url: source.clone(),
        destination,
    };
    PlannedTask { name: name.to_string(), kind: TaskKind::Download(spec, force) }
}

/// The tasks of the update round for `settings` and `flags`.
pub fn plan_tasks(settings: &Settings, flags: &Flags) -> (r: Vec<PlannedTask>)
    ensures
        is_task_plan(r@, *settings, *flags),
{
    let mut r: Vec<PlannedTask> = Vec::new();
    r.push(
        download_task(
            "Server",
            &settings.server.download_url,
            settings.server.name.clone(),
            flags.update || flags.update_server,
        ),
    );
    r.push(PlannedTask { name: "EULA".to_string(), kind: TaskKind::Eula });
    let force_plugins = flags.update || flags.update_plugins;
    let ghost first = r@;
    let mut i: usize = 0;
    while i < settings.plugins.len()
        invariant
            i <= settings.plugins@.len(),
            r@.len() == enabled_plugins(settings.plugins@.take(i as int)).len() + 2,
            r@[0] == first[0],
            r@[1] == first[1],
            forall|j: int|
                0 <= j < enabled_plugins(settings.plugins@.take(i as int)).len()
                    ==> is_plugin_task(
                    #[trigger] r@[j + 2],
                    enabled_plugins(settings.plugins@.take(i as int))[j],
                    force_plugins,
                ),
        decreases settings.plugins@.len() - i,
    {
        let p = &settings.plugins[i];
        assert(settings.plugins@.take(i + 1).drop_last() =~= settings.plugins@.take(i as int));
        proof {
            reveal_with_fuel(Seq::filter, 1);
        }
        assert(enabled_plugins(settings.plugins@.take(i + 1)) == if p.enabled {
            enabled_plugins(settings.plugins@.take(i as int)).push(*p)
        } else {
            enabled_plugins(settings.plugins@.take(i as int))
        });
        if p.enabled {
            let dest = join3(PLUGIN_DIR, p.name.as_str(), ARTIFACT_EXTENSION);
            r.push(download_task(p.name.as_str(), &p.download_url, dest, force_plugins));
        }
        i = i + 1;
    }
    assert(settings.plugins@.take(i as int) =~= settings.plugins@);
    r.push(
        PlannedTask {
            name: "Iris".to_string(),
            kind: TaskKind::SourceBuild(
                BuildPlan::from_settings(&settings.iris),
                settings.iris.enabled || flags.update || flags.update_iris,
            ),
        },
    );
    r.push(
        PlannedTask {
            name: "Clean".to_string(),
            kind: TaskKind::Clean(flags.clean || settings.clean.enabled),
        },
    );
    r
}

/// The path a task writes to, if it writes one.
pub open spec fn task_destination(t: PlannedTask) -> Option<Seq<char>> {
    match t.kind {
        TaskKind::Download(a, _) => Some(a.destination@),
        TaskKind::SourceBuild(plan, true) => Some(plan.destination@),
        _ => None,
    }
}

/// Whether tasks `i` and `j` write to the same path.
pub open spec fn share_destination(tasks: Seq<PlannedTask>, i: int, j: int) -> bool {
    &&& task_destination(tasks[i]) is Some
    &&& task_destination(tasks[i]) == task_destination(tasks[j])
}

fn destination_of(t: &PlannedTask) -> (r: Option<&String>)
    ensures
        r matches Some(d) ==> task_destination(*t) == Some(d@),
        r is None ==> task_destination(*t) is None,
{
    match &t.kind {
        TaskKind::Download(a, _) => Some(&a.destination),
        TaskKind::SourceBuild(plan, true) => Some(&plan.destination),
        _ => None,
    }
}

/// Two tasks that would write the same path, if there are any: such a plan
/// must not run, since its tasks run at the same time.
pub fn shared_destination(tasks: &Vec<PlannedTask>) -> (r: Option<(usize, usize)>)
    ensures
        r matches Some((i, j)) ==> i < j < tasks@.len() && share_destination(tasks@, i as int, j as int),
        r is None ==> forall|i: int, j: int|
            0 <= i < j < tasks@.len() ==> !share_destination(tasks@, i, j),
{
    let mut i: usize = 0;
    while i < tasks.len()
        invariant
            i <= tasks@.len(),
            forall|a: int, b: int| 0 <= a < i && a < b < tasks@.len() ==> !share_destination(tasks@, a, b),
        decreases tasks@.len() - i,
    {
        if let Some(d) = destination_of(&tasks[i]) {
            let mut j: usize = i + 1;
            while j < tasks.len()
                invariant
                    i < j <= tasks@.len(),
                    task_destination(tasks@[i as int]) == Some(d@),
                    forall|a: int, b: int|
                        0 <= a < i && a < b < tasks@.len() ==> !share_destination(tasks@, a, b),
                    forall|b: int| i < b < j ==> !share_destination(tasks@, i as int, b),
                decreases tasks@.len() - j,
            {
                if let Some(e) = destination_of(&tasks[j]) {
                    if *d == *e {
                        return Some((i, j));
                    }
                }
                j = j + 1;
            }
        }
        i = i + 1;
    }
    None
}

} // verus!
