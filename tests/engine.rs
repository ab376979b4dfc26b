use mcsm::cleanup::{cleanup_targets, deep_clean_commands, CleanupRun, DeleteOutcome, TargetKind, EXE_PATH};
use mcsm::commands::{build_tool_args, git_checkout_args, git_clone_args, git_pull_args};
use mcsm::files::find_files_regex;
use mcsm::pipeline::{
    is_artifact_file_name, locate_artifact, BuildAction, BuildError, BuildEvent, BuildPipeline,
    BuildPlan, FileEntry,
};
use mcsm::progress::DownloadProgress;
use mcsm::schedule::{plan_tasks, run_mode, shared_destination, Flags, RunMode, TaskKind};
use mcsm::settings::{
    default_settings, generate_default_settings, CleanSettings, IrisSettings, PluginSettings,
    ServerSoftwareSettings, Settings,
};
use mcsm::supervisor::{server_command, Supervisor, SupervisorAction, SupervisorEvent, SupervisorState};
use mcsm::sync::{
    decide, decide_build, ArtifactSpec, SyncAction, SyncError, SyncEvent, SyncOutcome, SyncRun,
    UpdateDecision,
};

fn no_flags() -> Flags {
    Flags {
        update: false,
        clean: false,
        excl_clean: false,
        deep_excl_clean: false,
        update_iris: false,
        update_server: false,
        update_plugins: false,
    }
}

fn strings(v: &[&str]) -> Vec<String> {
    v.iter().map(|s| s.to_string()).collect()
}

fn artifact(enabled: bool) -> ArtifactSpec {
    ArtifactSpec {
        identity: "Server".to_string(),
        enabled,
        source_url: "https://example.org/server.jar".to_string(),
        destination: "server.jar".to_string(),
    }
}

fn small_settings(plugins: Vec<PluginSettings>) -> Settings {
    Settings {
        debug: false,
        server: ServerSoftwareSettings {
            name: "server.jar".to_string(),
            regex: "server.*\\.jar".to_string(),
            download_url: "https://example.org/server.jar".to_string(),
            reboot_delay: 5,
            flags: strings(&["-Xmx1G"]),
        },
        clean: CleanSettings {
            enabled: true,
            also_on_reboot: true,
            folders: strings(&["./logs"]),
            files: strings(&["missing.txt", "banned-ips.json"]),
        },
        plugins,
        iris: IrisSettings {
            name: "Iris".to_string(),
            enabled: false,
            repo_url: "https://example.org/iris.git".to_string(),
            repo_branch: "master".to_string(),
            repo_path: "plugins/Iris/Iris".to_string(),
        },
    }
}

/// Runs a sync to its end, answering with `answer`; returns the actions asked for.
fn drive_sync(run: &mut SyncRun, answer: impl Fn(&SyncAction) -> SyncEvent) -> Vec<SyncAction> {
    let mut actions = Vec::new();
    for _ in 0..10 {
        let a = run.action();
        actions.push(a);
        if let SyncAction::Stop(_) = a {
            break;
        }
        let e = answer(&a);
        run.advance(e);
    }
    actions
}

fn fetch_count(actions: &[SyncAction]) -> usize {
    actions.iter().filter(|a| matches!(a, SyncAction::Fetch)).count()
}

#[test]
fn default_settings_location() {
    assert_eq!(default_settings(), "settings.toml");
}

#[test]
fn default_settings_values() {
    let s = generate_default_settings();
    assert!(!s.debug);
    assert_eq!(s.server.name, "purpur.jar");
    assert_eq!(s.server.reboot_delay, 5);
    assert_eq!(s.server.flags, strings(&["-Xmx4G", "-Xms4G"]));
    assert!(!s.clean.enabled);
    assert_eq!(s.clean.folders.len(), 22);
    assert_eq!(s.clean.files.len(), 17);
    assert_eq!(s.clean.folders[0], "./crash-reports");
    assert_eq!(s.clean.files[16], "spigot.yml");
    assert_eq!(s.plugins.len(), 6);
    assert!(s.plugins.iter().all(|p| p.enabled));
    assert_eq!(s.plugins[1].name, "WorldEdit");
    assert_eq!(s.iris.repo_path, "plugins/Iris/Iris");
    assert!(s.iris.enabled);
}

#[test]
fn decision_rule() {
    assert_eq!(decide(true, true, false), UpdateDecision::Skip);
    assert_eq!(decide(true, false, false), UpdateDecision::Fetch);
    assert_eq!(decide(true, true, true), UpdateDecision::Fetch);
    assert_eq!(decide(false, false, true), UpdateDecision::Skip);
    assert_eq!(decide_build(false, false), UpdateDecision::Skip);
    assert_eq!(decide_build(false, true), UpdateDecision::Rebuild);
    assert_eq!(decide_build(true, false), UpdateDecision::Rebuild);
}

#[test]
fn present_artifact_is_left_alone() {
    let mut run = SyncRun::new(artifact(true), false);
    let actions = drive_sync(&mut run, |_| SyncEvent::Present(true));
    assert_eq!(actions.len(), 2);
    assert!(matches!(actions[0], SyncAction::CheckPresence));
    assert!(matches!(actions[1], SyncAction::Stop(Ok(SyncOutcome::Skipped))));
}

#[test]
fn disabled_artifact_is_untouched() {
    let mut run = SyncRun::new(artifact(false), true);
    let actions = drive_sync(&mut run, |_| SyncEvent::Present(false));
    assert_eq!(actions.len(), 1);
    assert!(matches!(actions[0], SyncAction::Stop(Ok(SyncOutcome::Disabled))));
}

#[test]
fn forced_update_fetches_once_whether_present_or_not() {
    for present in [true, false] {
        let mut run = SyncRun::new(artifact(true), true);
        let actions = drive_sync(&mut run, |a| match a {
            SyncAction::CheckPresence => SyncEvent::Present(present),
            SyncAction::DeleteExisting => SyncEvent::Deleted(true),
            _ => SyncEvent::Fetched(1024),
        });
        assert_eq!(fetch_count(&actions), 1);
        assert!(matches!(actions[0], SyncAction::DeleteExisting));
        assert!(matches!(actions.last(), Some(SyncAction::Stop(Ok(SyncOutcome::Fetched(1024))))));
    }
}

#[test]
fn sync_errors() {
    let mut run = SyncRun::new(artifact(true), false);
    let actions = drive_sync(&mut run, |a| match a {
        SyncAction::CheckPresence => SyncEvent::Present(false),
        SyncAction::DeleteExisting => SyncEvent::Deleted(true),
        _ => SyncEvent::TransportFailed,
    });
    assert!(matches!(actions.last(), Some(SyncAction::Stop(Err(SyncError::Transport)))));

    let mut run = SyncRun::new(artifact(true), true);
    let actions = drive_sync(&mut run, |_| SyncEvent::Deleted(false));
    assert_eq!(fetch_count(&actions), 0);
    assert!(matches!(actions.last(), Some(SyncAction::Stop(Err(SyncError::Filesystem)))));

    let mut run = SyncRun::new(artifact(true), true);
    let actions = drive_sync(&mut run, |a| match a {
        SyncAction::DeleteExisting => SyncEvent::Deleted(true),
        _ => SyncEvent::WriteFailed,
    });
    assert!(matches!(actions.last(), Some(SyncAction::Stop(Err(SyncError::Filesystem)))));
}

#[test]
fn missing_cleanup_target_is_not_an_error() {
    let settings = small_settings(Vec::new()).clean;
    let targets = cleanup_targets(&settings);
    assert_eq!(targets.len(), 3);
    assert_eq!(targets[0].path, "./logs");
    assert_eq!(targets[0].kind, TargetKind::Folder);
    assert_eq!(targets[1].path, "missing.txt");
    assert_eq!(targets[2].kind, TargetKind::File);
    let mut run = CleanupRun::new(targets);
    let outcomes = [DeleteOutcome::Failed, DeleteOutcome::Missing, DeleteOutcome::Deleted];
    let mut visited = Vec::new();
    let mut k = 0;
    while let Some(t) = run.current() {
        visited.push(t.path.clone());
        run.record(outcomes[k]);
        k += 1;
    }
    assert_eq!(visited, strings(&["./logs", "missing.txt", "banned-ips.json"]));
    assert!(run.is_done());
    assert_eq!(run.failures, vec![0]);
}

#[test]
fn deep_clean_spares_the_executable() {
    let mut flags = no_flags();
    flags.deep_excl_clean = true;
    flags.excl_clean = true;
    flags.update = true;
    assert_eq!(run_mode(&flags), RunMode::DeepClean);
    let commands = deep_clean_commands(EXE_PATH);
    assert_eq!(commands.len(), 3);
    assert_eq!(commands[0], strings(&["add", "-f", "/target/release/mcsm.exe"]));
    assert_eq!(commands[1], strings(&["clean", "-fdX"]));
    assert_eq!(commands[2], strings(&["restore", "--staged", "/target/release/mcsm.exe"]));
    let sweeps = commands.iter().filter(|c| c[0] == "clean").count();
    assert_eq!(sweeps, 1);
}

#[test]
fn run_modes() {
    assert_eq!(run_mode(&no_flags()), RunMode::Supervise);
    let mut flags = no_flags();
    flags.excl_clean = true;
    assert_eq!(run_mode(&flags), RunMode::CleanOnly);
}

#[test]
fn one_fetch_for_the_missing_enabled_plugin() {
    let plugins = vec![
        PluginSettings {
            name: "Off".to_string(),
            enabled: false,
            download_url: "https://example.org/off.jar".to_string(),
        },
        PluginSettings {
            name: "On".to_string(),
            enabled: true,
            download_url: "https://example.org/on.jar".to_string(),
        },
    ];
    let settings = small_settings(plugins);
    let tasks = plan_tasks(&settings, &no_flags());
    let names: Vec<&str> = tasks.iter().map(|t| t.name.as_str()).collect();
    assert_eq!(names, vec!["Server", "EULA", "On", "Iris", "Clean"]);
    let mut fetches = 0;
    for t in &tasks[2..3] {
        if let TaskKind::Download(spec, force) = &t.kind {
            assert!(!force);
            assert_eq!(spec.destination, "./plugins/On.jar");
            assert_eq!(spec.source_url, "https://example.org/on.jar");
            let mut run = SyncRun::new(spec.clone(), *force);
            let actions = drive_sync(&mut run, |a| match a {
                SyncAction::CheckPresence => SyncEvent::Present(false),
                SyncAction::DeleteExisting => SyncEvent::Deleted(true),
                _ => SyncEvent::Fetched(10),
            });
            fetches += fetch_count(&actions);
        } else {
            panic!("plugin task is not a download");
        }
    }
    assert_eq!(fetches, 1);
    assert!(matches!(tasks[3].kind, TaskKind::SourceBuild(_, false)));
    assert!(matches!(tasks[4].kind, TaskKind::Clean(true)));
}

#[test]
fn present_server_is_not_downloaded_and_still_launched() {
    let settings = small_settings(Vec::new());
    let tasks = plan_tasks(&settings, &no_flags());
    let mut fetches = 0;
    if let TaskKind::Download(spec, force) = &tasks[0].kind {
        assert!(!force);
        assert_eq!(spec.destination, "server.jar");
        let mut run = SyncRun::new(spec.clone(), *force);
        let actions = drive_sync(&mut run, |_| SyncEvent::Present(true));
        fetches += fetch_count(&actions);
        assert!(matches!(actions.last(), Some(SyncAction::Stop(Ok(SyncOutcome::Skipped)))));
    } else {
        panic!("server task is not a download");
    }
    assert_eq!(fetches, 0);
    assert_eq!(run_mode(&no_flags()), RunMode::Supervise);
    let sup = Supervisor::new(&settings.server, &settings.clean);
    assert_eq!(sup.action(), SupervisorAction::Spawn);
    assert_eq!(server_command(&settings.server), strings(&["-Xmx1G", "-jar", "server.jar", "nogui"]));
}

#[test]
fn reboot_waits_cleans_and_restarts_once() {
    let settings = small_settings(Vec::new());
    let mut sup = Supervisor::new(&settings.server, &settings.clean);
    assert_eq!(sup.action(), SupervisorAction::Spawn);
    sup.advance(SupervisorEvent::Spawned).unwrap();
    assert_eq!(sup.action(), SupervisorAction::Wait);
    sup.advance(SupervisorEvent::Exited(137)).unwrap();
    assert_eq!(sup.state, SupervisorState::Exited(137));
    assert_eq!(sup.action(), SupervisorAction::Sleep(5));
    sup.advance(SupervisorEvent::Done).unwrap();
    assert_eq!(sup.action(), SupervisorAction::Clean);
    sup.advance(SupervisorEvent::Done).unwrap();
    assert_eq!(sup.action(), SupervisorAction::Spawn);
    sup.advance(SupervisorEvent::Spawned).unwrap();
    assert_eq!(sup.action(), SupervisorAction::Wait);
}

#[test]
fn reboot_without_cleanup_and_spawn_failure() {
    let mut settings = small_settings(Vec::new());
    settings.clean.also_on_reboot = false;
    let mut sup = Supervisor::new(&settings.server, &settings.clean);
    assert!(sup.advance(SupervisorEvent::SpawnFailed).is_err());
    sup.advance(SupervisorEvent::Spawned).unwrap();
    sup.advance(SupervisorEvent::Exited(0)).unwrap();
    sup.advance(SupervisorEvent::Done).unwrap();
    assert_eq!(sup.action(), SupervisorAction::Proceed);
}

fn entry(path: &str, name: &str, is_file: bool) -> FileEntry {
    FileEntry { path: path.to_string(), file_name: name.to_string(), is_file }
}

fn iris_settings() -> IrisSettings {
    IrisSettings {
        name: "Iris".to_string(),
        enabled: true,
        repo_url: "https://example.org/iris.git".to_string(),
        repo_branch: "master".to_string(),
        repo_path: "repo".to_string(),
    }
}

/// Runs a build to its end; returns the actions asked for.
fn drive_build(p: &mut BuildPipeline, answer: impl Fn(&BuildAction) -> BuildEvent) -> Vec<String> {
    let mut actions = Vec::new();
    for _ in 0..20 {
        let a = p.action();
        actions.push(format!("{:?}", a));
        if let BuildAction::Stop(_) = a {
            break;
        }
        let e = answer(&a);
        p.advance(e);
    }
    actions
}

#[test]
fn build_plan_paths() {
    let plan = BuildPlan::from_settings(&iris_settings());
    assert_eq!(plan.tools_path, "repo/build/buildtools/CraftBukkit");
    assert_eq!(plan.destination, "./plugins/Iris.jar");
    assert_eq!(plan.repo_url, "https://example.org/iris.git");
}

#[test]
fn artifact_names() {
    assert!(is_artifact_file_name("Iris-3.0.jar"));
    assert!(is_artifact_file_name("Iris.jar"));
    assert!(!is_artifact_file_name("Iris-3.0.zip"));
    assert!(!is_artifact_file_name("iris.jar"));
    assert!(!is_artifact_file_name("jar"));
    let entries = vec![
        entry("repo/Iris.jar", "Iris.jar", false),
        entry("repo/a.txt", "a.txt", true),
        entry("repo/build/Iris-3.jar", "Iris-3.jar", true),
        entry("repo/build/Iris-4.jar", "Iris-4.jar", true),
    ];
    assert_eq!(locate_artifact(&entries), Some(2));
    assert_eq!(locate_artifact(&entries[..2].to_vec()), None);
}

#[test]
fn build_installs_located_artifact() {
    let mut p = BuildPipeline::new(BuildPlan::from_settings(&iris_settings()));
    let actions = drive_build(&mut p, |a| match a {
        BuildAction::CheckWorkingCopy => BuildEvent::Outcome(false),
        BuildAction::CheckBuildTools => BuildEvent::Outcome(true),
        BuildAction::ListWorkingCopy => {
            BuildEvent::Listed(vec![entry("repo/build/Iris-3.jar", "Iris-3.jar", true)])
        }
        _ => BuildEvent::Outcome(true),
    });
    assert_eq!(
        actions,
        vec![
            "CheckWorkingCopy",
            "CloneRepository",
            "PullRepository",
            "CheckBuildTools",
            "RunBuild",
            "ListWorkingCopy",
            "RemoveInstalled",
            "MoveArtifact(\"repo/build/Iris-3.jar\")",
            "Stop(Ok(()))",
        ]
    );
}

#[test]
fn failed_clone_never_builds() {
    let mut p = BuildPipeline::new(BuildPlan::from_settings(&iris_settings()));
    let actions = drive_build(&mut p, |_| BuildEvent::Outcome(false));
    assert_eq!(actions, vec!["CheckWorkingCopy", "CloneRepository", "Stop(Err(Acquire))"]);
    assert!(p.is_finished());
}

#[test]
fn build_errors_name_the_stage() {
    let cases: Vec<(&str, BuildError)> = vec![
        ("PullRepository", BuildError::Sync),
        ("SetupBuildTools", BuildError::Dependencies),
        ("RunBuild", BuildError::Build),
        ("ListWorkingCopy", BuildError::ArtifactNotFound),
        ("RemoveInstalled", BuildError::Install),
        ("MoveArtifact", BuildError::Install),
    ];
    for (failing, expected) in cases {
        let mut p = BuildPipeline::new(BuildPlan::from_settings(&iris_settings()));
        let actions = drive_build(&mut p, |a| {
            let name = format!("{:?}", a);
            if name.starts_with(failing) {
                return match a {
                    BuildAction::ListWorkingCopy => BuildEvent::Listed(Vec::new()),
                    _ => BuildEvent::Outcome(false),
                };
            }
            match a {
                BuildAction::CheckBuildTools => BuildEvent::Outcome(failing != "SetupBuildTools"),
                BuildAction::ListWorkingCopy => {
                    BuildEvent::Listed(vec![entry("repo/Iris.jar", "Iris.jar", true)])
                }
                _ => BuildEvent::Outcome(true),
            }
        });
        assert_eq!(actions.last().unwrap(), &format!("Stop(Err({:?}))", expected));
        let failed_at = actions.iter().position(|a| a.starts_with(failing)).unwrap();
        if failing == "SetupBuildTools" {
            // a failed setup shows in the check that follows it
            assert_eq!(actions[failed_at + 1], "CheckBuildTools");
            assert_eq!(failed_at + 3, actions.len());
        } else {
            assert_eq!(failed_at + 2, actions.len());
        }
    }
}

#[test]
fn command_lines() {
    assert_eq!(git_clone_args("u", "p"), strings(&["clone", "u", "p"]));
    assert_eq!(git_checkout_args("dev"), strings(&["checkout", "dev"]));
    assert_eq!(git_pull_args(), strings(&["pull", "master"]));
    assert_eq!(build_tool_args("repo", "setup"), strings(&["/C", "cd", "repo", "&&", "gradlew", "setup"]));
}

#[test]
fn progress_stops_at_total() {
    let mut p = DownloadProgress::new(Some(100));
    p.add_chunk(60);
    assert_eq!(p.position, 60);
    p.add_chunk(60);
    assert_eq!(p.position, 100);
    let mut q = DownloadProgress::new(None);
    assert_eq!(q.total, u64::MAX);
    q.add_chunk(u64::MAX);
    q.add_chunk(5);
    assert_eq!(q.position, u64::MAX);
}

#[test]
fn regex_filters_names() {
    let names = strings(&["purpur-1.jar", "paper.jar", "purpur.txt", "xpurpur-2.jar"]);
    let found = find_files_regex("^purpur.*\\.jar$", &names).unwrap();
    assert_eq!(found, strings(&["purpur-1.jar"]));
    let found = find_files_regex("purpur.*\\.jar", &names).unwrap();
    assert_eq!(found, strings(&["purpur-1.jar", "xpurpur-2.jar"]));
    assert!(find_files_regex("purpur(", &names).is_err());
    assert_eq!(find_files_regex("x", &Vec::new()).unwrap(), Vec::<String>::new());
}

#[test]
fn colliding_destinations_are_found() {
    let plugin = |name: &str, enabled: bool| PluginSettings {
        name: name.to_string(),
        enabled,
        download_url: "https://example.org/p.jar".to_string(),
    };
    let settings = small_settings(vec![plugin("A", true), plugin("Iris", true)]);
    let tasks = plan_tasks(&settings, &no_flags());
    // the source build does not run, so nothing collides
    assert_eq!(shared_destination(&tasks), None);
    let mut flags = no_flags();
    flags.update_iris = true;
    let tasks = plan_tasks(&settings, &flags);
    assert_eq!(shared_destination(&tasks), Some((3, 4)));
    let tasks = plan_tasks(&generate_default_settings(), &flags);
    assert_eq!(shared_destination(&tasks), None);
}
