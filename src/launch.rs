//! From an operator's command and what the descriptors hold to the work that
//! the command asks for: which project on which host, and which commands.
use vstd::prelude::*;
use crate::commands::{
    CommandLine, init_srv_repo, restart_pipeline, stop, status, log, list, open, remove, init_words,
    restart_words, stop_words, status_words, log_words, list_words, open_words, remove_words,
};
use crate::deploy::{DeployStep, deploy, deploy_plan};
use crate::descriptor::{HmdYml, HmdConfigYml, descriptor_for_init, default_stages, check, checked};
use crate::error::HmdError;
use crate::layout::{Env, HMD_ROOT, git_dir_of, work_tree_of, project_dir_of};
use crate::resolve::{
    get_project, get_init_project, get_ssh_address, first_given, string_view, descriptor_project,
    descriptor_address, config_address, given_dir,
};
use crate::script::{generate_pipeline_sh, pipeline_script};
use crate::stage_map::entries_of;

verus! {

/// What the operator asked for. `None` options are looked up in the
/// descriptors.
pub enum Command {
    /// Create the project on the host and write its descriptor.
    Init { ssh_address: Option<String>, project: Option<String> },
    /// Push the project and start its pipeline; with `dirty`, uncommitted
    /// changes go along.
    Deploy { dirty: bool },
    /// Stop the pipeline.
    Stop { ssh_address: Option<String>, project: Option<String> },
    /// Start the deployed pipeline again.
    Restart { ssh_address: Option<String>, project: Option<String> },
    /// Follow the pipeline's status log.
    Status { ssh_address: Option<String>, project: Option<String> },
    /// Follow the pipeline's output.
    Log { ssh_address: Option<String>, project: Option<String> },
    /// List the projects on the host.
    List { ssh_address: Option<String> },
    /// Open a shell in the project's work tree on the host.
    Open { ssh_address: Option<String>, project: Option<String> },
    /// Stop the pipeline and delete the project from the host.
    Remove { ssh_address: Option<String>, project: Option<String> },
}

/// The work that a command comes to.
pub enum Action {
    /// Run `repo`, then write `descriptor` as the project descriptor and, if
    /// given, `config` as the global one.
    Init { env: Env, repo: CommandLine, descriptor: HmdYml, config: Option<HmdConfigYml> },
    /// Run `steps` in order, stopping at the first that fails.
    Deploy { env: Env, steps: Vec<DeployStep> },
    /// Run one command.
    Run(CommandLine),
}

/// The project and host found, or the first of them that is missing.
pub open spec fn target_of(project: Option<Seq<char>>, address: Option<Seq<char>>) -> Result<
    (Seq<char>, Seq<char>),
    HmdError,
> {
    match project {
        None => Err(HmdError::MissingProject),
        Some(p) => match address {
            None => Err(HmdError::MissingAddress),
            Some(a) => Ok((p, a)),
        },
    }
}

/// The host of a command with the address option `ssh_address`.
pub open spec fn address_of(
    ssh_address: Option<String>,
    local: Result<HmdYml, HmdError>,
    global: Result<HmdConfigYml, HmdError>,
) -> Option<Seq<char>> {
    first_given(seq![string_view(ssh_address), descriptor_address(local), config_address(global)])
}

/// The project and host of a command with the options `project` and
/// `ssh_address`.
pub open spec fn target(
    project: Option<String>,
    ssh_address: Option<String>,
    local: Result<HmdYml, HmdError>,
    global: Result<HmdConfigYml, HmdError>,
) -> Result<(Seq<char>, Seq<char>), HmdError> {
    target_of(
        first_given(seq![string_view(project), descriptor_project(local)]),
        address_of(ssh_address, local, global),
    )
}

/// `r` is the error of `t`, or, where `t` found a project and a host, what
/// `ok` says of them.
pub open spec fn on_target(
    t: Result<(Seq<char>, Seq<char>), HmdError>,
    r: Result<Action, HmdError>,
    ok: spec_fn(Seq<char>, Seq<char>) -> bool,
) -> bool {
    match t {
        Err(e) => r == Err::<Action, HmdError>(e),
        Ok((p, a)) => ok(p, a),
    }
}

/// `r` runs one command, whose words are `words`.
pub open spec fn runs(r: Result<Action, HmdError>, words: Seq<Seq<char>>) -> bool {
    r matches Ok(Action::Run(c)) && c.words() == words
}

fn resolve_env(
    project: Option<String>,
    ssh_address: Option<String>,
    local: &Result<HmdYml, HmdError>,
    global: &Result<HmdConfigYml, HmdError>,
) -> (r: Result<Env, HmdError>)
    ensures
        match target(project, ssh_address, *local, *global) {
            Err(e) => r == Err::<Env, HmdError>(e),
            Ok((p, a)) => (r matches Ok(env) && env.laid_out(HMD_ROOT@, p, a)),
        },
{
    let project = match get_project(project, local) {
        Ok(p) => p,
        Err(e) => return Err(e),
    };
    let ssh_address = match get_ssh_address(ssh_address, local, global) {
        Ok(a) => a,
        Err(e) => return Err(e),
    };
    Ok(Env::new(project.as_str(), ssh_address.as_str()))
}

/// Turns a command into its work. `local` is the project descriptor as read;
/// it is checked first, and one that cannot be used counts as absent when a
/// project or host is looked up, and fails a deploy with its reason. `global`
/// is the global descriptor as read, and `current_dir` the name of the
/// working directory, which only `init` falls back on.
pub fn launch(
    command: Command,
    local: Result<HmdYml, HmdError>,
    global: Result<HmdConfigYml, HmdError>,
    current_dir: Result<String, HmdError>,
) -> (r: Result<Action, HmdError>)
    ensures
        match command {
            Command::Init { ssh_address, project } => on_target(
                target_of(
                    first_given(seq![string_view(project), descriptor_project(checked(local)), given_dir(current_dir)]),
                    address_of(ssh_address, checked(local), global),
                ),
                r,
                |p: Seq<char>, a: Seq<char>|
                    r matches Ok(Action::Init { env, repo, descriptor, config }) && env.laid_out(HMD_ROOT@, p, a)
                        && repo.words() == init_words(a, git_dir_of(HMD_ROOT@, p), work_tree_of(HMD_ROOT@, p))
                        && descriptor.project@ == p && descriptor.ssh_address@ == a
                        && (checked(local) matches Ok(y) ==> descriptor.artifacts == y.artifacts && descriptor.stages == y.stages)
                        && (checked(local) is Err ==> descriptor.artifacts@.len() == 0 && entries_of(descriptor.stages) == default_stages())
                        && (global is Err <==> config is Some)
                        && (config matches Some(c) ==> c.ssh_address@ == a),
            ),
            Command::Deploy { dirty } => match checked(local) {
                Err(e) => r == Err::<Action, HmdError>(e),
                Ok(y) => (r matches Ok(Action::Deploy { env, steps })
                    && env.laid_out(HMD_ROOT@, y.project@, y.ssh_address@)
                    && deploy_plan(
                        steps@,
                        env,
                        dirty,
                        pipeline_script(entries_of(y.stages)),
                        y.artifacts@.map_values(|a: String| a@).push(Env::PIPELINE_SH@),
                    )),
            },
            Command::Stop { ssh_address, project } => on_target(
                target(project, ssh_address, checked(local), global),
                r,
                |p: Seq<char>, a: Seq<char>| runs(r, stop_words(a, work_tree_of(HMD_ROOT@, p))),
            ),
            Command::Restart { ssh_address, project } => on_target(
                target(project, ssh_address, checked(local), global),
                r,
                |p: Seq<char>, a: Seq<char>| runs(r, restart_words(a, work_tree_of(HMD_ROOT@, p))),
            ),
            Command::Status { ssh_address, project } => on_target(
                target(project, ssh_address, checked(local), global),
                r,
                |p: Seq<char>, a: Seq<char>| runs(r, status_words(a, work_tree_of(HMD_ROOT@, p))),
            ),
            Command::Log { ssh_address, project } => on_target(
                target(project, ssh_address, checked(local), global),
                r,
                |p: Seq<char>, a: Seq<char>| runs(r, log_words(a, work_tree_of(HMD_ROOT@, p))),
            ),
            Command::List { ssh_address } => match address_of(ssh_address, checked(local), global) {
                None => r == Err::<Action, HmdError>(HmdError::MissingAddress),
                Some(a) => runs(r, list_words(a)),
            },
            Command::Open { ssh_address, project } => on_target(
                target(project, ssh_address, checked(local), global),
                r,
                |p: Seq<char>, a: Seq<char>| runs(r, open_words(a, work_tree_of(HMD_ROOT@, p))),
            ),
            Command::Remove { ssh_address, project } => on_target(
                target(project, ssh_address, checked(local), global),
                r,
                |p: Seq<char>, a: Seq<char>|
                    runs(r, remove_words(a, project_dir_of(HMD_ROOT@, p), work_tree_of(HMD_ROOT@, p))),
            ),
        },
{
    let local = check(local);
    match command {
        Command::Init { ssh_address, project } => {
            let project = match get_init_project(project, &local, current_dir) {
                Ok(p) => p,
                Err(e) => return Err(e),
            };
            let ssh_address = match get_ssh_address(ssh_address, &local, &global) {
                Ok(a) => a,
                Err(e) => return Err(e),
            };
            let env = Env::new(project.as_str(), ssh_address.as_str());
            let repo = init_srv_repo(&env);
            let config = match global {
                Ok(_) => None,
                Err(_) => Some(HmdConfigYml::new(ssh_address.clone())),
            };
            let descriptor = descriptor_for_init(local, project.as_str(), ssh_address.as_str());
            Ok(Action::Init { env, repo, descriptor, config })
        },
        Command::Deploy { dirty } => {
            let yml = match local {
                Ok(y) => y,
                Err(e) => return Err(e),
            };
            let env = Env::new(yml.project.as_str(), yml.ssh_address.as_str());
            let script = match generate_pipeline_sh(&yml.stages) {
                Ok(t) => t,
                Err(e) => return Err(e),
            };
            let ghost listed = yml.artifacts@;
            let mut artifacts = yml.artifacts;
            artifacts.push(String::from_str(Env::PIPELINE_SH));
            assert(artifacts@.map_values(|a: String| a@) =~= listed.map_values(|a: String| a@).push(
                Env::PIPELINE_SH@,
            ));
            let steps = deploy(&env, dirty, script, &artifacts);
            Ok(Action::Deploy { env, steps })
        },
        Command::Stop { ssh_address, project } => match resolve_env(project, ssh_address, &local, &global) {
            Ok(env) => Ok(Action::Run(stop(&env))),
            Err(e) => Err(e),
        },
        Command::Restart { ssh_address, project } => match resolve_env(project, ssh_address, &local, &global) {
            Ok(env) => Ok(Action::Run(restart_pipeline(&env))),
            Err(e) => Err(e),
        },
        Command::Status { ssh_address, project } => match resolve_env(project, ssh_address, &local, &global) {
            Ok(env) => Ok(Action::Run(status(&env))),
            Err(e) => Err(e),
        },
        Command::Log { ssh_address, project } => match resolve_env(project, ssh_address, &local, &global) {
            Ok(env) => Ok(Action::Run(log(&env))),
            Err(e) => Err(e),
        },
        Command::List { ssh_address } => match get_ssh_address(ssh_address, &local, &global) {
            Ok(a) => Ok(Action::Run(list(a.as_str()))),
            Err(e) => Err(e),
        },
        Command::Open { ssh_address, project } => match resolve_env(project, ssh_address, &local, &global) {
            Ok(env) => Ok(Action::Run(open(&env))),
            Err(e) => Err(e),
        },
        Command::Remove { ssh_address, project } => match resolve_env(project, ssh_address, &local, &global) {
            Ok(env) => Ok(Action::Run(remove(&env))),
            Err(e) => Err(e),
        },
    }
}

} // verus!
