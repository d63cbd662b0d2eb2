//! The local and remote command lines of each lifecycle action. Every remote
//! action is one `ssh` session whose arguments the remote shell runs in order;
//! its steps are chained with `&&`, so a failed step stops the rest and fails
//! the session.
use vstd::prelude::*;
use crate::layout::{Env, HMD_ROOT, path_join};

verus! {

/// A program and its arguments.
pub struct CommandLine {
    pub program: String,
    pub args: Vec<String>,
}

impl CommandLine {
    /// The program followed by its arguments.
    pub open spec fn words(self) -> Seq<Seq<char>> {
        seq![self.program@] + self.args@.map_values(|a: String| a@)
    }

    pub fn new(program: &str) -> (r: CommandLine)
        ensures
            r.words() == seq![program@],
    {
        let r = CommandLine { program: String::from_str(program), args: Vec::new() };
        assert(r.words() =~= seq![program@]);
        r
    }

    /// Adds one argument at the end.
    pub fn arg(&mut self, a: String)
        ensures
            final(self).words() == old(self).words().push(a@),
    {
        self.args.push(a);
        assert(self.words() =~= old(self).words().push(a@));
    }
}

/// `~` replaced by `$HOME` at its first place, for programs that do not
/// expand it.
pub open spec fn home_expanded(s: Seq<char>) -> Seq<char>
    decreases s.len(),
{
    if s.len() == 0 {
        s
    } else if s[0] == '~' {
        "$HOME"@ + s.drop_first()
    } else {
        seq![s[0]] + home_expanded(s.drop_first())
    }
}

/// Replaces the first `~` of `s` by `$HOME`.
pub fn expand_home(s: &str) -> (r: String)
    ensures
        r@ == home_expanded(s@),
{
    let n = s.unicode_len();
    let mut i: usize = 0;
    assert(s@.skip(0) =~= s@ && s@.take(0) + s@ =~= s@);
    while i < n
        invariant
            n == s@.len(),
            i <= n,
            forall|k: int| 0 <= k < i ==> s@[k] != '~',
            home_expanded(s@) == s@.take(i as int) + home_expanded(s@.skip(i as int)),
        decreases n - i,
    {
        if s.get_char(i) == '~' {
            let mut r = String::from_str(s.substring_char(0, i));
            r.append("$HOME");
            r.append(s.substring_char(i + 1, n));
            proof {
                let rest = s@.skip(i as int);
                assert(rest[0] == '~');
                assert(rest.drop_first() =~= s@.subrange(i + 1, n as int));
                assert(s@.take(i as int) =~= s@.subrange(0, i as int));
            }
            return r;
        }
        proof {
            let rest = s@.skip(i as int);
            assert(rest.drop_first() =~= s@.skip(i + 1));
            assert(s@.take(i + 1) =~= s@.take(i as int) + seq![rest[0]]);
            assert(home_expanded(rest) == seq![rest[0]] + home_expanded(rest.drop_first()));
            assert(s@.take(i as int) + home_expanded(rest) =~= s@.take(i + 1) + home_expanded(s@.skip(i + 1)));
        }
        i = i + 1;
    }
    proof {
        assert(s@.skip(n as int).len() == 0);
        assert(s@.take(n as int) =~= s@);
        assert(s@.take(n as int) + home_expanded(s@.skip(n as int)) =~= s@);
    }
    String::from_str(s)
}

/// The shell loop that interrupts every child of the process whose id is in
/// the file `pid_path`, once a second, until none is left to signal. Its
/// status is zero, so it can be chained with `&&`.
pub open spec fn kill_and_wait_text(pid_path: Seq<char>) -> Seq<char> {
    "while pkill -SIGINT -P `cat "@ + pid_path + "` 2>/dev/null; do sleep 1; done"@
}

/// How many times that loop runs `pkill`, when its `k`-th run finds children
/// to signal exactly where `signalled[k]` holds: it stops after the first run
/// that signals nothing.
pub open spec fn signal_attempts(signalled: Seq<bool>) -> nat
    decreases signalled.len(),
{
    if signalled.len() == 0 {
        0
    } else if !signalled[0] {
        1
    } else {
        1 + signal_attempts(signalled.drop_first())
    }
}

/// The kill-and-wait loop over a pid file whose process has no children
/// stops after exactly one signal attempt.
pub proof fn lemma_kill_and_wait_without_children(signalled: Seq<bool>)
    requires
        signalled.len() >= 1,
        !signalled[0],
    ensures
        signal_attempts(signalled) == 1,
{
}

/// Every run of the loop that finds children is followed by another attempt;
/// the loop ends with the first attempt that finds none.
pub proof fn lemma_kill_and_wait_stops_at_first_miss(signalled: Seq<bool>, k: int)
    requires
        0 <= k < signalled.len(),
        !signalled[k],
        forall|j: int| 0 <= j < k ==> signalled[j],
    ensures
        signal_attempts(signalled) == k + 1,
    decreases k,
{
    if k > 0 {
        let rest = signalled.drop_first();
        assert forall|j: int| 0 <= j < k - 1 implies rest[j] by {
            assert(rest[j] == signalled[j + 1]);
        }
        lemma_kill_and_wait_stops_at_first_miss(rest, k - 1);
    }
}

pub fn kill_and_wait_cmd(pipeline_pid: &str) -> (r: String)
    ensures
        r@ == kill_and_wait_text(pipeline_pid@),
{
    let mut r = String::from_str("while pkill -SIGINT -P `cat ");
    r.append(pipeline_pid);
    r.append("` 2>/dev/null; do sleep 1; done");
    r
}

/// The shell line that starts the pipeline script detached from the session,
/// its output in the output log and its process id in the pid file.
pub open spec fn launch_text() -> Seq<char> {
    "{ nohup bash "@ + Env::PIPELINE_SH@ + " > "@ + Env::OUT_LOG@ + " 2>&1 & echo $! > "@ + Env::PIPELINE_PID@
        + "; }"@
}

fn launch_line() -> (r: String)
    ensures
        r@ == launch_text(),
{
    let mut r = String::from_str("{ nohup bash ");
    r.append(Env::PIPELINE_SH);
    r.append(" > ");
    r.append(Env::OUT_LOG);
    r.append(" 2>&1 & echo $! > ");
    r.append(Env::PIPELINE_PID);
    r.append("; }");
    r
}

/// `line`, followed by `&&` so that what comes after runs only if it succeeded.
pub open spec fn and_then(line: Seq<char>) -> Seq<char> {
    line + " &&"@
}

fn chained(mut line: String) -> (r: String)
    ensures
        r@ == and_then(line@),
{
    line.append(" &&");
    line
}

fn cd_line(dir: &str) -> (r: String)
    ensures
        r@ == and_then("cd "@ + dir@),
{
    let mut r = String::from_str("cd ");
    r.append(dir);
    r.append(" &&");
    r
}

/// `ssh <address> <line>...`.
pub open spec fn ssh_words(address: Seq<char>, lines: Seq<Seq<char>>) -> Seq<Seq<char>> {
    seq!["ssh"@, address] + lines
}

pub open spec fn init_words(address: Seq<char>, git_dir: Seq<char>, work_tree: Seq<char>) -> Seq<Seq<char>> {
    ssh_words(
        address,
        seq![and_then("mkdir -p "@ + git_dir + " "@ + work_tree), and_then("cd "@ + git_dir), "git init --bare"@],
    )
}

pub open spec fn run_pipeline_words(
    address: Seq<char>,
    git_dir: Seq<char>,
    work_tree: Seq<char>,
    branch: Seq<char>,
) -> Seq<Seq<char>> {
    ssh_words(
        address,
        seq![
            "source .profile;"@,
            and_then("cd "@ + work_tree),
            and_then(kill_and_wait_text(Env::PIPELINE_PID@)),
            and_then("git --git-dir="@ + home_expanded(git_dir) + " --work-tree=. checkout --force "@ + branch),
            launch_text(),
        ],
    )
}

pub open spec fn restart_words(address: Seq<char>, work_tree: Seq<char>) -> Seq<Seq<char>> {
    ssh_words(
        address,
        seq![
            "source .profile;"@,
            and_then("cd "@ + work_tree),
            and_then(kill_and_wait_text(Env::PIPELINE_PID@)),
            launch_text(),
        ],
    )
}

pub open spec fn stop_words(address: Seq<char>, work_tree: Seq<char>) -> Seq<Seq<char>> {
    ssh_words(address, seq![kill_and_wait_text(path_join(work_tree, Env::PIPELINE_PID@))])
}

pub open spec fn status_words(address: Seq<char>, work_tree: Seq<char>) -> Seq<Seq<char>> {
    ssh_words(
        address,
        seq![
            "tail -f "@ + path_join(work_tree, Env::STATUS_LOG@) + " --pid `cat "@ + path_join(
                work_tree,
                Env::PIPELINE_PID@,
            ) + "`"@,
        ],
    )
}

pub open spec fn log_words(address: Seq<char>, work_tree: Seq<char>) -> Seq<Seq<char>> {
    ssh_words(
        address,
        seq![
            "tail -n 50 -f "@ + path_join(work_tree, Env::OUT_LOG@) + " --pid `cat "@ + path_join(
                work_tree,
                Env::PIPELINE_PID@,
            ) + "`"@,
        ],
    )
}

pub open spec fn list_words(address: Seq<char>) -> Seq<Seq<char>> {
    ssh_words(address, seq!["ls "@ + HMD_ROOT@])
}

pub open spec fn open_words(address: Seq<char>, work_tree: Seq<char>) -> Seq<Seq<char>> {
    seq!["ssh"@, "-t"@, address, "cd "@ + work_tree + " && exec $SHELL -l"@]
}

pub open spec fn remove_words(address: Seq<char>, project_dir: Seq<char>, work_tree: Seq<char>) -> Seq<Seq<char>> {
    ssh_words(
        address,
        seq![and_then(kill_and_wait_text(path_join(work_tree, Env::PIPELINE_PID@))), "rm -rf "@ + project_dir],
    )
}

pub open spec fn push_words(address: Seq<char>, git_dir: Seq<char>) -> Seq<Seq<char>> {
    seq!["git"@, "push"@, "--force"@, address + ":"@ + git_dir, "HEAD"@]
}

pub open spec fn upload_words(address: Seq<char>, work_tree: Seq<char>, artifacts: Seq<Seq<char>>) -> Seq<Seq<char>> {
    seq!["scp"@] + artifacts + seq![address + ":"@ + work_tree]
}

/// `ssh <address>`, to which the remote command lines are added.
pub fn ssh(ssh_address: &str) -> (r: CommandLine)
    ensures
        r.words() == seq!["ssh"@, ssh_address@],
{
    let mut r = CommandLine::new("ssh");
    r.arg(String::from_str(ssh_address));
    r
}

/// Creates the bare repository and the work tree on the host.
pub fn init_srv_repo(env: &Env) -> (r: CommandLine)
    ensures
        r.words() == init_words(env.ssh_address@, env.git_dir@, env.work_tree@),
{
    let mut r = ssh(env.ssh_address.as_str());
    let mut mkdir = String::from_str("mkdir -p ");
    mkdir.append(env.git_dir.as_str());
    mkdir.append(" ");
    mkdir.append(env.work_tree.as_str());
    r.arg(chained(mkdir));
    r.arg(cd_line(env.git_dir.as_str()));
    r.arg(String::from_str("git init --bare"));
    r
}

/// Force-pushes the checked-out commit to the project's repository on the host.
pub fn git_push(env: &Env) -> (r: CommandLine)
    ensures
        r.words() == push_words(env.ssh_address@, env.git_dir@),
{
    let mut r = CommandLine::new("git");
    r.arg(String::from_str("push"));
    r.arg(String::from_str("--force"));
    let mut target = env.ssh_address.clone();
    target.append(":");
    target.append(env.git_dir.as_str());
    r.arg(target);
    r.arg(String::from_str("HEAD"));
    r
}

/// Commits what is staged, even nothing.
pub fn git_commit_staged() -> (r: CommandLine)
    ensures
        r.words() == seq!["git"@, "commit"@, "-m"@, "staged"@, "--allow-empty"@],
{
    let mut r = CommandLine::new("git");
    r.arg(String::from_str("commit"));
    r.arg(String::from_str("-m"));
    r.arg(String::from_str("staged"));
    r.arg(String::from_str("--allow-empty"));
    r
}

/// Stages the whole work tree, then commits it, even nothing.
pub fn git_commit_unstaged() -> (r: Vec<CommandLine>)
    ensures
        r@.len() == 2,
        r@[0].words() == seq!["git"@, "add"@, "."@],
        r@[1].words() == seq!["git"@, "commit"@, "-m"@, "unstaged"@, "--allow-empty"@],
{
    let mut add = CommandLine::new("git");
    add.arg(String::from_str("add"));
    add.arg(String::from_str("."));
    let mut commit = CommandLine::new("git");
    commit.arg(String::from_str("commit"));
    commit.arg(String::from_str("-m"));
    commit.arg(String::from_str("unstaged"));
    commit.arg(String::from_str("--allow-empty"));
    vec![add, commit]
}

/// Undoes the last commit, keeping its changes unstaged.
pub fn git_reset_unstaged() -> (r: CommandLine)
    ensures
        r.words() == seq!["git"@, "reset"@, "HEAD~1"@],
{
    let mut r = CommandLine::new("git");
    r.arg(String::from_str("reset"));
    r.arg(String::from_str("HEAD~1"));
    r
}

/// Undoes the last commit, keeping its changes staged.
pub fn git_reset_staged() -> (r: CommandLine)
    ensures
        r.words() == seq!["git"@, "reset"@, "HEAD~1"@, "--soft"@],
{
    let mut r = CommandLine::new("git");
    r.arg(String::from_str("reset"));
    r.arg(String::from_str("HEAD~1"));
    r.arg(String::from_str("--soft"));
    r
}

/// Asks git for the name of the checked-out branch.
pub fn git_branch() -> (r: CommandLine)
    ensures
        r.words() == seq!["git"@, "branch"@, "--show-current"@],
{
    let mut r = CommandLine::new("git");
    r.arg(String::from_str("branch"));
    r.arg(String::from_str("--show-current"));
    r
}

/// Copies the artifacts into the work tree on the host; `None` when there is
/// nothing to copy.
pub fn upload(env: &Env, artifacts: &Vec<String>) -> (r: Option<CommandLine>)
    ensures
        artifacts@.len() == 0 ==> r is None,
        artifacts@.len() > 0 ==> (r matches Some(c) && c.words() == upload_words(
            env.ssh_address@,
            env.work_tree@,
            artifacts@.map_values(|a: String| a@),
        )),
{
    if artifacts.len() == 0 {
        return None;
    }
    let mut r = CommandLine::new("scp");
    let mut i: usize = 0;
    while i < artifacts.len()
        invariant
            i <= artifacts@.len(),
            r.words() == seq!["scp"@] + artifacts@.take(i as int).map_values(|a: String| a@),
        decreases artifacts@.len() - i,
    {
        r.arg(artifacts[i].clone());
        assert(artifacts@.take(i + 1).map_values(|a: String| a@)
            =~= artifacts@.take(i as int).map_values(|a: String| a@).push(artifacts@[i as int]@));
        i = i + 1;
    }
    assert(artifacts@.take(artifacts@.len() as int) =~= artifacts@);
    let mut target = env.ssh_address.clone();
    target.append(":");
    target.append(env.work_tree.as_str());
    r.arg(target);
    Some(r)
}

/// Stops the running pipeline, checks out `branch` into the work tree and
/// starts the uploaded pipeline script detached. The login profile is loaded
/// first, whether or not it exists; every later step runs only if the one
/// before it succeeded, so a failed checkout launches nothing, leaves the pid
/// file alone and makes the session fail.
pub fn run_pipeline(env: &Env, branch: &str) -> (r: CommandLine)
    ensures
        r.words() == run_pipeline_words(env.ssh_address@, env.git_dir@, env.work_tree@, branch@),
{
    let mut r = ssh(env.ssh_address.as_str());
    r.arg(String::from_str("source .profile;"));
    r.arg(cd_line(env.work_tree.as_str()));
    r.arg(chained(kill_and_wait_cmd(Env::PIPELINE_PID)));
    let mut checkout = String::from_str("git --git-dir=");
    let git_dir = expand_home(env.git_dir.as_str());
    checkout.append(git_dir.as_str());
    checkout.append(" --work-tree=. checkout --force ");
    checkout.append(branch);
    r.arg(chained(checkout));
    r.arg(launch_line());
    r
}

/// Stops the running pipeline and starts the already deployed script again;
/// as in `run_pipeline`, each step after the profile runs only if the one
/// before it succeeded.
pub fn restart_pipeline(env: &Env) -> (r: CommandLine)
    ensures
        r.words() == restart_words(env.ssh_address@, env.work_tree@),
{
    let mut r = ssh(env.ssh_address.as_str());
    r.arg(String::from_str("source .profile;"));
    r.arg(cd_line(env.work_tree.as_str()));
    r.arg(chained(kill_and_wait_cmd(Env::PIPELINE_PID)));
    r.arg(launch_line());
    r
}

/// Stops the running pipeline.
pub fn stop(env: &Env) -> (r: CommandLine)
    ensures
        r.words() == stop_words(env.ssh_address@, env.work_tree@),
{
    let mut r = ssh(env.ssh_address.as_str());
    let pid = env.pipeline_pid();
    r.arg(kill_and_wait_cmd(pid.as_str()));
    r
}

/// Follows the status log while the pipeline process lives.
pub fn status(env: &Env) -> (r: CommandLine)
    ensures
        r.words() == status_words(env.ssh_address@, env.work_tree@),
{
    let mut r = ssh(env.ssh_address.as_str());
    let status_log = env.status_log();
    let pid = env.pipeline_pid();
    let mut tail = String::from_str("tail -f ");
    tail.append(status_log.as_str());
    tail.append(" --pid `cat ");
    tail.append(pid.as_str());
    tail.append("`");
    r.arg(tail);
    r
}

/// Follows the last 50 lines of the output log while the pipeline process
/// lives.
pub fn log(env: &Env) -> (r: CommandLine)
    ensures
        r.words() == log_words(env.ssh_address@, env.work_tree@),
{
    let mut r = ssh(env.ssh_address.as_str());
    let out_log = env.out_log();
    let pid = env.pipeline_pid();
    let mut tail = String::from_str("tail -n 50 -f ");
    tail.append(out_log.as_str());
    tail.append(" --pid `cat ");
    tail.append(pid.as_str());
    tail.append("`");
    r.arg(tail);
    r
}

/// Lists the projects on the host.
pub fn list(ssh_address: &str) -> (r: CommandLine)
    ensures
        r.words() == list_words(ssh_address@),
{
    let mut r = ssh(ssh_address);
    let mut ls = String::from_str("ls ");
    ls.append(HMD_ROOT);
    r.arg(ls);
    r
}

/// Opens an interactive shell in the work tree on the host.
pub fn open(env: &Env) -> (r: CommandLine)
    ensures
        r.words() == open_words(env.ssh_address@, env.work_tree@),
{
    let mut r = CommandLine::new("ssh");
    r.arg(String::from_str("-t"));
    r.arg(env.ssh_address.clone());
    let mut shell = String::from_str("cd ");
    shell.append(env.work_tree.as_str());
    shell.append(" && exec $SHELL -l");
    r.arg(shell);
    r
}

/// Stops the running pipeline and deletes the project from the host.
pub fn remove(env: &Env) -> (r: CommandLine)
    ensures
        r.words() == remove_words(env.ssh_address@, env.project_dir@, env.work_tree@),
{
    let mut r = ssh(env.ssh_address.as_str());
    let pid = env.pipeline_pid();
    r.arg(chained(kill_and_wait_cmd(pid.as_str())));
    let mut rm = String::from_str("rm -rf ");
    rm.append(env.project_dir.as_str());
    r.arg(rm);
    r
}

} // verus!
