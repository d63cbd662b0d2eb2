//! Deploying uncommitted work: the staged changes and then the rest of the
//! work tree are committed, the branch is force-pushed, and the commits that
//! were made are undone again whether or not the push succeeded. A failure
//! before the push skips the push and goes straight to undoing what was
//! committed. The first failure, or else the push's result, is reported only
//! after the local history is restored.
use vstd::prelude::*;
use crate::commands::{
    CommandLine, push_words, git_commit_staged, git_commit_unstaged, git_push, git_reset_unstaged, git_reset_staged,
};
use crate::error::HmdError;
use crate::layout::Env;

verus! {

/// The steps, in order: commit staged changes, stage everything, commit it,
/// push, undo the second commit, undo the first.
pub const COMMIT_STAGED: usize = 0;
pub const ADD_ALL: usize = 1;
pub const COMMIT_UNSTAGED: usize = 2;
pub const PUSH: usize = 3;
pub const RESET_UNSTAGED: usize = 4;
pub const RESET_STAGED: usize = 5;
pub const STEPS: usize = 6;

/// Where a dirty push stands.
pub struct DirtyState {
    /// The step that runs next.
    pub next: usize,
    /// What will be reported once the history is restored: the failure that
    /// stopped the push from running, or what the push gave.
    pub reported: Result<(), HmdError>,
    /// The outcome, once the dirty push is over.
    pub finished: Option<Result<(), HmdError>>,
}

/// The state after the step `s.next` ended with `r`.
/// - A failed first commit ends at once: nothing was committed.
/// - A failed stage or second commit is kept for the report, and the first
///   commit, the only one made, is undone.
/// - The push's result is kept, and both commits are undone.
/// - A failed undo ends with its own error: the history cannot be restored.
/// - Once the first commit is undone, what was kept is reported.
pub open spec fn after_step(s: DirtyState, r: Result<(), HmdError>) -> DirtyState {
    if s.next == COMMIT_STAGED && r is Err {
        DirtyState { next: s.next, reported: s.reported, finished: Some(r) }
    } else if (s.next == ADD_ALL || s.next == COMMIT_UNSTAGED) && r is Err {
        DirtyState { next: RESET_STAGED, reported: r, finished: None }
    } else if s.next == PUSH {
        DirtyState { next: RESET_UNSTAGED, reported: r, finished: None }
    } else if r is Err {
        DirtyState { next: s.next, reported: s.reported, finished: Some(r) }
    } else if s.next == RESET_STAGED {
        DirtyState { next: s.next, reported: s.reported, finished: Some(s.reported) }
    } else {
        DirtyState { next: (s.next + 1) as usize, reported: s.reported, finished: None }
    }
}

pub open spec fn initial_state() -> DirtyState {
    DirtyState { next: COMMIT_STAGED, reported: Ok(()), finished: None }
}

pub open spec fn steps_left(s: DirtyState) -> int {
    (STEPS - s.next) * 2 + if s.finished is None { 1int } else { 0int }
}

/// The state at the end, when step `k` ends with `results[k]` each time it
/// runs.
pub open spec fn run_steps(s: DirtyState, results: Seq<Result<(), HmdError>>) -> DirtyState
    decreases steps_left(s),
{
    if s.finished is Some || s.next >= STEPS {
        s
    } else {
        run_steps(after_step(s, results[s.next as int]), results)
    }
}

/// The local history as a sequence of commits, after the step `step` ended
/// with `r`: a commit adds one, an undo takes the last one away.
pub open spec fn history_after(history: Seq<nat>, step: usize, r: Result<(), HmdError>) -> Seq<nat> {
    if r is Err {
        history
    } else if step == COMMIT_STAGED || step == COMMIT_UNSTAGED {
        history.push(history.len())
    } else if (step == RESET_UNSTAGED || step == RESET_STAGED) && history.len() > 0 {
        history.drop_last()
    } else {
        history
    }
}

/// The local history at the end, when step `k` ends with `results[k]`.
pub open spec fn run_history(s: DirtyState, history: Seq<nat>, results: Seq<Result<(), HmdError>>) -> Seq<nat>
    decreases steps_left(s),
{
    if s.finished is Some || s.next >= STEPS {
        history
    } else {
        run_history(
            after_step(s, results[s.next as int]),
            history_after(history, s.next, results[s.next as int]),
            results,
        )
    }
}

/// What a dirty push reports when its undo steps succeed: the first failure
/// among the commits and the stage, else the push's result.
pub open spec fn first_failure(results: Seq<Result<(), HmdError>>) -> Result<(), HmdError> {
    if results[COMMIT_STAGED as int] is Err {
        results[COMMIT_STAGED as int]
    } else if results[ADD_ALL as int] is Err {
        results[ADD_ALL as int]
    } else if results[COMMIT_UNSTAGED as int] is Err {
        results[COMMIT_UNSTAGED as int]
    } else {
        results[PUSH as int]
    }
}

/// A dirty push in progress: the command of each step and where it stands.
pub struct DirtyPush {
    pub commands: Vec<CommandLine>,
    pub state: DirtyState,
}

/// `p` is a dirty push to the repository `git_dir` on the host `address`
/// that has not started.
pub open spec fn fresh_dirty_push(p: DirtyPush, address: Seq<char>, git_dir: Seq<char>) -> bool {
    &&& p.well_formed()
    &&& p.state == initial_state()
    &&& p.commands@[COMMIT_STAGED as int].words() == seq!["git"@, "commit"@, "-m"@, "staged"@, "--allow-empty"@]
    &&& p.commands@[ADD_ALL as int].words() == seq!["git"@, "add"@, "."@]
    &&& p.commands@[COMMIT_UNSTAGED as int].words() == seq!["git"@, "commit"@, "-m"@, "unstaged"@, "--allow-empty"@]
    &&& p.commands@[PUSH as int].words() == push_words(address, git_dir)
    &&& p.commands@[RESET_UNSTAGED as int].words() == seq!["git"@, "reset"@, "HEAD~1"@]
    &&& p.commands@[RESET_STAGED as int].words() == seq!["git"@, "reset"@, "HEAD~1"@, "--soft"@]
}

/// The dirty push of the checked-out branch to the project's repository.
pub fn git_push_dirty(env: &Env) -> (r: DirtyPush)
    ensures
        fresh_dirty_push(r, env.ssh_address@, env.git_dir@),
{
    let mut commands: Vec<CommandLine> = Vec::new();
    commands.push(git_commit_staged());
    let mut unstaged = git_commit_unstaged();
    let commit = unstaged.pop().unwrap();
    let add = unstaged.pop().unwrap();
    commands.push(add);
    commands.push(commit);
    commands.push(git_push(env));
    commands.push(git_reset_unstaged());
    commands.push(git_reset_staged());
    DirtyPush { commands, state: DirtyState { next: COMMIT_STAGED, reported: Ok(()), finished: None } }
}

impl DirtyPush {
    pub open spec fn well_formed(self) -> bool {
        &&& self.commands@.len() == STEPS
        &&& self.state.next < STEPS
    }

    /// The command of the step that runs next; `None` once the push is over.
    pub fn next_command(&self) -> (r: Option<&CommandLine>)
        requires
            self.well_formed(),
        ensures
            self.state.finished is Some ==> r is None,
            self.state.finished is None ==> r == Some(&self.commands@[self.state.next as int]),
    {
        if self.state.finished.is_some() {
            None
        } else {
            Some(&self.commands[self.state.next])
        }
    }

    /// Takes the result of the step that ran.
    pub fn record(&mut self, result: Result<(), HmdError>)
        requires
            old(self).well_formed(),
            old(self).state.finished is None,
        ensures
            final(self).well_formed(),
            final(self).commands == old(self).commands,
            final(self).state == after_step(old(self).state, result),
    {
        let next = self.state.next;
        if next == PUSH {
            self.state.next = RESET_UNSTAGED;
            self.state.reported = result;
        } else {
            match result {
                Err(e) => {
                    if next == ADD_ALL || next == COMMIT_UNSTAGED {
                        self.state.next = RESET_STAGED;
                        self.state.reported = Err(e);
                    } else {
                        self.state.finished = Some(Err(e));
                    }
                },
                Ok(_) => {
                    if next == RESET_STAGED {
                        let kept = match &self.state.reported {
                            Ok(v) => Ok(*v),
                            Err(e) => Err(e.duplicate()),
                        };
                        self.state.finished = Some(kept);
                    } else {
                        self.state.next = next + 1;
                    }
                },
            }
        }
    }

    /// The outcome; `None` while the push is not over.
    pub fn outcome(&self) -> (r: Option<Result<(), HmdError>>)
        ensures
            r == self.state.finished,
    {
        match &self.state.finished {
            None => None,
            Some(Ok(v)) => Some(Ok(*v)),
            Some(Err(e)) => Some(Err(e.duplicate())),
        }
    }
}

/// When the undo steps succeed, a dirty push leaves the local history as it
/// found it, whichever of the commits, the stage and the push failed, and
/// reports the first failure among the commits and the stage, else exactly
/// what the push gave.
pub proof fn lemma_dirty_push_restores_history(history: Seq<nat>, results: Seq<Result<(), HmdError>>)
    requires
        results.len() == STEPS,
        results[RESET_UNSTAGED as int] is Ok,
        results[RESET_STAGED as int] is Ok,
    ensures
        run_steps(initial_state(), results).finished == Some(first_failure(results)),
        run_history(initial_state(), history, results) == history,
{
    reveal_with_fuel(run_steps, 7);
    reveal_with_fuel(run_history, 7);
    let h1 = history.push(history.len());
    assert(h1.drop_last() =~= history);
    let h2 = h1.push(h1.len());
    assert(h2.drop_last() =~= h1);
}

} // verus!
