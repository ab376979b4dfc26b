use vstd::prelude::*;
use crate::settings::string_views;

verus! {

/// The program that runs the build tool's wrapper script.
pub const SHELL: &'static str = "cmd";

/// Build-tool target that prepares the build tools.
pub const SETUP_TARGET: &'static str = "setup";

/// Build-tool target that builds the plugin.
pub const BUILD_TARGET: &'static str = "Iris";

/// Arguments for git that clone `url` into `path`.
pub fn git_clone_args(url: &str, path: &str) -> (r: Vec<String>)
    ensures
        string_views(r@) == seq!["clone"@, url@, path@],
{
    let r = vec!["clone".to_string(), url.to_string(), path.to_string()];
    assert(string_views(r@) =~= seq!["clone"@, url@, path@]);
    r
}

/// Arguments for git, run inside the working copy, that switch to `branch`.
pub fn git_checkout_args(branch: &str) -> (r: Vec<String>)
    ensures
        string_views(r@) == seq!["checkout"@, branch@],
{
    let r = vec!["checkout".to_string(), branch.to_string()];
    assert(string_views(r@) =~= seq!["checkout"@, branch@]);
    r
}

/// Arguments for git, run inside the working copy, that pull the latest changes.
pub fn git_pull_args() -> (r: Vec<String>)
    ensures
        string_views(r@) == seq!["pull"@, "master"@],
{
    let r = vec!["pull".to_string(), "master".to_string()];
    assert(string_views(r@) =~= seq!["pull"@, "master"@]);
    r
}

/// Arguments for `SHELL` that run the build tool on `target` inside `repo_path`.
pub fn build_tool_args(repo_path: &str, target: &str) -> (r: Vec<String>)
    ensures
        string_views(r@) == seq!["/C"@, "cd"@, repo_path@, "&&"@, "gradlew"@, target@],
{
    let r = vec![
        "/C".to_string(),
        "cd".to_string(),
        repo_path.to_string(),
        "&&".to_string(),
        "gradlew".to_string(),
        target.to_string(),
    ];
    assert(string_views(r@) =~= seq!["/C"@, "cd"@, repo_path@, "&&"@, "gradlew"@, target@]);
    r
}

} // verus!
