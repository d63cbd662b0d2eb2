use hmd::dirty::{git_push_dirty, DirtyPush, PUSH, STEPS};
use hmd::error::HmdError;
use hmd::layout::Env;

fn program_args(p: &DirtyPush) -> Option<Vec<String>> {
    p.next_command().map(|c| {
        let mut w = vec![c.program.clone()];
        w.extend(c.args.iter().cloned());
        w
    })
}

/// Runs a dirty push against a history of commits, where each step succeeds
/// unless it is the push and `push_fails`.
fn drive(push_fails: bool, history: &mut Vec<u32>) -> (Result<(), HmdError>, usize) {
    let mut p = git_push_dirty(&Env::new("demo", "me@host"));
    let mut ran = 0;
    while p.outcome().is_none() {
        let words = program_args(&p).unwrap();
        ran += 1;
        let step = p.state.next;
        let result = if step == PUSH && push_fails {
            Err(HmdError::CommandFailed("exit status: 1".to_string()))
        } else {
            Ok(())
        };
        if result.is_ok() {
            if words[1] == "commit" {
                let id = history.len() as u32 + 100;
                history.push(id);
            } else if words[1] == "reset" {
                history.pop();
            }
        }
        p.record(result);
    }
    (p.outcome().unwrap(), ran)
}

#[test]
fn failed_dirty_push_restores_history_and_reports_push_failure() {
    let mut history = vec![1, 2, 3];
    let before = history.clone();
    let (outcome, ran) = drive(true, &mut history);
    assert_eq!(history, before);
    assert_eq!(history.last(), Some(&3));
    assert_eq!(ran, STEPS);
    assert_eq!(outcome, Err(HmdError::CommandFailed("exit status: 1".to_string())));
}

#[test]
fn successful_dirty_push_restores_history() {
    let mut history = vec![7];
    let (outcome, ran) = drive(false, &mut history);
    assert_eq!(history, vec![7]);
    assert_eq!(ran, STEPS);
    assert_eq!(outcome, Ok(()));
}

#[test]
fn failed_stage_undoes_the_first_commit() {
    let mut history = vec![1, 2];
    let mut p = git_push_dirty(&Env::new("demo", "me@host"));
    p.record(Ok(()));
    history.push(3);
    assert_eq!(program_args(&p).unwrap(), vec!["git", "add", "."]);
    p.record(Err(HmdError::CommandFailed("add".to_string())));
    assert_eq!(program_args(&p).unwrap(), vec!["git", "reset", "HEAD~1", "--soft"]);
    history.pop();
    p.record(Ok(()));
    assert_eq!(history, vec![1, 2]);
    assert!(p.next_command().is_none());
    assert_eq!(p.outcome(), Some(Err(HmdError::CommandFailed("add".to_string()))));
}

#[test]
fn failed_second_commit_undoes_the_first_and_skips_push() {
    let mut p = git_push_dirty(&Env::new("demo", "me@host"));
    p.record(Ok(()));
    p.record(Ok(()));
    assert_eq!(program_args(&p).unwrap(), vec!["git", "commit", "-m", "unstaged", "--allow-empty"]);
    p.record(Err(HmdError::CommandFailed("commit".to_string())));
    assert_eq!(program_args(&p).unwrap(), vec!["git", "reset", "HEAD~1", "--soft"]);
    p.record(Ok(()));
    assert_eq!(p.outcome(), Some(Err(HmdError::CommandFailed("commit".to_string()))));
}

#[test]
fn failed_commit_stops_before_push() {
    let mut p = git_push_dirty(&Env::new("demo", "me@host"));
    assert_eq!(program_args(&p).unwrap(), vec!["git", "commit", "-m", "staged", "--allow-empty"]);
    p.record(Err(HmdError::CommandFailed("exit status: 128".to_string())));
    assert!(p.next_command().is_none());
    assert_eq!(p.outcome(), Some(Err(HmdError::CommandFailed("exit status: 128".to_string()))));
}

#[test]
fn failed_reset_is_reported() {
    let mut p = git_push_dirty(&Env::new("demo", "me@host"));
    for _ in 0..4 {
        p.record(Ok(()));
    }
    assert_eq!(program_args(&p).unwrap(), vec!["git", "reset", "HEAD~1"]);
    p.record(Err(HmdError::CommandFailed("reset".to_string())));
    assert_eq!(p.outcome(), Some(Err(HmdError::CommandFailed("reset".to_string()))));
}

#[test]
fn dirty_push_commands_in_order() {
    let mut p = git_push_dirty(&Env::new("demo", "me@host"));
    let mut seen = vec![];
    while let Some(w) = program_args(&p) {
        seen.push(w.join(" "));
        p.record(Ok(()));
    }
    assert_eq!(
        seen,
        vec![
            "git commit -m staged --allow-empty",
            "git add .",
            "git commit -m unstaged --allow-empty",
            "git push --force me@host:~/.hmd/demo/git HEAD",
            "git reset HEAD~1",
            "git reset HEAD~1 --soft",
        ]
    );
}
