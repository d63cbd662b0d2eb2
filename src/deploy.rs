//! The steps of a deploy, in the order they must run: push, write the
//! pipeline script, upload it with the artifacts, delete the local copy, then
//! start the pipeline on the checked-out branch. The first step that fails
//! ends the deploy; nothing after it runs.
use vstd::prelude::*;
use crate::commands::{CommandLine, git_push, git_branch, upload, push_words, upload_words};
use crate::dirty::{DirtyPush, git_push_dirty, fresh_dirty_push};
use crate::layout::Env;

verus! {

pub enum DeployStep {
    /// Run the push.
    Push(CommandLine),
    /// Run the dirty push, step by step.
    DirtyPush(DirtyPush),
    /// Write this text as the pipeline script in the working directory.
    WriteScript(String),
    /// Run the upload.
    Upload(CommandLine),
    /// Delete the local pipeline script.
    RemoveScript,
    /// Run this command to learn the checked-out branch, then start the
    /// pipeline on it.
    Start(CommandLine),
}

/// `steps` deploy the project laid out by `env`: pushed dirty or not, with
/// `script` as its pipeline script and `artifacts` uploaded.
pub open spec fn deploy_plan(
    steps: Seq<DeployStep>,
    env: Env,
    dirty: bool,
    script: Seq<char>,
    artifacts: Seq<Seq<char>>,
) -> bool {
    &&& steps.len() == 5
    &&& dirty ==> (steps[0] matches DeployStep::DirtyPush(p) && fresh_dirty_push(p, env.ssh_address@, env.git_dir@))
    &&& !dirty ==> (steps[0] matches DeployStep::Push(c) && c.words() == push_words(env.ssh_address@, env.git_dir@))
    &&& steps[1] matches DeployStep::WriteScript(s) && s@ == script
    &&& steps[2] matches DeployStep::Upload(c) && c.words() == upload_words(env.ssh_address@, env.work_tree@, artifacts)
    &&& steps[3] is RemoveScript
    &&& steps[4] matches DeployStep::Start(c) && c.words() == seq!["git"@, "branch"@, "--show-current"@]
}

/// The steps of a deploy. `artifacts` holds the pipeline script's own name
/// among the files to upload, so the upload always runs.
pub fn deploy(env: &Env, dirty: bool, script: String, artifacts: &Vec<String>) -> (r: Vec<DeployStep>)
    requires
        artifacts@.len() > 0,
    ensures
        deploy_plan(r@, *env, dirty, script@, artifacts@.map_values(|a: String| a@)),
{
    let mut steps: Vec<DeployStep> = Vec::new();
    if dirty {
        steps.push(DeployStep::DirtyPush(git_push_dirty(env)));
    } else {
        steps.push(DeployStep::Push(git_push(env)));
    }
    steps.push(DeployStep::WriteScript(script));
    match upload(env, artifacts) {
        Some(c) => steps.push(DeployStep::Upload(c)),
        None => {
            proof {
                assert(false);
            }
        },
    }
    steps.push(DeployStep::RemoveScript);
    steps.push(DeployStep::Start(git_branch()));
    steps
}

} // verus!
