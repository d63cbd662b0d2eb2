use hmd::commands::{
    expand_home, git_branch, git_commit_staged, git_commit_unstaged, git_push, git_reset_staged,
    git_reset_unstaged, init_srv_repo, kill_and_wait_cmd, list, log, open, remove, restart_pipeline,
    run_pipeline, ssh, status, stop, upload, CommandLine,
};
use hmd::layout::Env;

fn words(c: &CommandLine) -> Vec<String> {
    let mut w = vec![c.program.clone()];
    w.extend(c.args.iter().cloned());
    w
}

const KILL_PID: &str = "while pkill -SIGINT -P `cat pipeline.pid` 2>/dev/null; do sleep 1; done";
const KILL_PID_AND: &str = "while pkill -SIGINT -P `cat pipeline.pid` 2>/dev/null; do sleep 1; done &&";
const LAUNCH: &str = "{ nohup bash pipeline.sh > out.log 2>&1 & echo $! > pipeline.pid; }";

#[test]
fn kill_and_wait_loop_text() {
    assert_eq!(kill_and_wait_cmd("pipeline.pid"), KILL_PID);
}

#[test]
fn home_is_expanded_once() {
    assert_eq!(expand_home("~/.hmd/demo/git"), "$HOME/.hmd/demo/git");
    assert_eq!(expand_home("/srv/git"), "/srv/git");
    assert_eq!(expand_home("a~b~"), "a$HOMEb~");
    assert_eq!(expand_home(""), "");
}

#[test]
fn ssh_session() {
    assert_eq!(words(&ssh("me@host")), vec!["ssh", "me@host"]);
}

#[test]
fn init_creates_bare_repository() {
    let env = Env::new("demo", "me@host");
    assert_eq!(
        words(&init_srv_repo(&env)),
        vec![
            "ssh",
            "me@host",
            "mkdir -p ~/.hmd/demo/git ~/.hmd/demo/work-tree &&",
            "cd ~/.hmd/demo/git &&",
            "git init --bare"
        ]
    );
}

#[test]
fn git_commands() {
    let env = Env::new("demo", "me@host");
    assert_eq!(words(&git_push(&env)), vec!["git", "push", "--force", "me@host:~/.hmd/demo/git", "HEAD"]);
    assert_eq!(words(&git_commit_staged()), vec!["git", "commit", "-m", "staged", "--allow-empty"]);
    let unstaged = git_commit_unstaged();
    assert_eq!(words(&unstaged[0]), vec!["git", "add", "."]);
    assert_eq!(words(&unstaged[1]), vec!["git", "commit", "-m", "unstaged", "--allow-empty"]);
    assert_eq!(words(&git_reset_unstaged()), vec!["git", "reset", "HEAD~1"]);
    assert_eq!(words(&git_reset_staged()), vec!["git", "reset", "HEAD~1", "--soft"]);
    assert_eq!(words(&git_branch()), vec!["git", "branch", "--show-current"]);
}

#[test]
fn run_pipeline_kills_then_checks_out_then_launches() {
    let env = Env::new("demo", "me@host");
    assert_eq!(
        words(&run_pipeline(&env, "main")),
        vec![
            "ssh",
            "me@host",
            "source .profile;",
            "cd ~/.hmd/demo/work-tree &&",
            KILL_PID_AND,
            "git --git-dir=$HOME/.hmd/demo/git --work-tree=. checkout --force main &&",
            LAUNCH,
        ]
    );
}

#[test]
fn restart_does_not_check_out() {
    let env = Env::new("demo", "me@host");
    assert_eq!(
        words(&restart_pipeline(&env)),
        vec!["ssh", "me@host", "source .profile;", "cd ~/.hmd/demo/work-tree &&", KILL_PID_AND, LAUNCH]
    );
}

#[test]
fn lifecycle_commands() {
    let env = Env::new("demo", "me@host");
    let kill = "while pkill -SIGINT -P `cat ~/.hmd/demo/work-tree/pipeline.pid` 2>/dev/null; do sleep 1; done";
    let kill_and = format!("{kill} &&");
    assert_eq!(words(&stop(&env)), vec!["ssh", "me@host", kill]);
    assert_eq!(
        words(&status(&env)),
        vec![
            "ssh",
            "me@host",
            "tail -f ~/.hmd/demo/work-tree/status.log --pid `cat ~/.hmd/demo/work-tree/pipeline.pid`"
        ]
    );
    assert_eq!(
        words(&log(&env)),
        vec![
            "ssh",
            "me@host",
            "tail -n 50 -f ~/.hmd/demo/work-tree/out.log --pid `cat ~/.hmd/demo/work-tree/pipeline.pid`"
        ]
    );
    assert_eq!(words(&list("me@host")), vec!["ssh", "me@host", "ls ~/.hmd"]);
    assert_eq!(words(&remove(&env)), vec!["ssh", "me@host", kill_and.as_str(), "rm -rf ~/.hmd/demo"]);
    assert_eq!(
        words(&open(&env)),
        vec!["ssh", "-t", "me@host", "cd ~/.hmd/demo/work-tree && exec $SHELL -l"]
    );
}

#[test]
fn upload_artifacts() {
    let env = Env::new("demo", "me@host");
    assert!(upload(&env, &vec![]).is_none());
    let c = upload(&env, &vec!["target/app".to_string(), "pipeline.sh".to_string()]).unwrap();
    assert_eq!(words(&c), vec!["scp", "target/app", "pipeline.sh", "me@host:~/.hmd/demo/work-tree"]);
}

#[test]
fn failed_checkout_stops_the_launch() {
    let env = Env::new("demo", "me@host");
    let line = words(&run_pipeline(&env, "main"))[2..].join(" ");
    assert_eq!(
        line,
        "source .profile; cd ~/.hmd/demo/work-tree && while pkill -SIGINT -P `cat pipeline.pid` 2>/dev/null; \
         do sleep 1; done && git --git-dir=$HOME/.hmd/demo/git --work-tree=. checkout --force main && \
         { nohup bash pipeline.sh > out.log 2>&1 & echo $! > pipeline.pid; }"
    );
}
