use hmd::execution::{simulate, Hook, PipelineRun, RunState, StageOutcome};
use hmd::error::{HmdError, Malformed};
use hmd::script::{generate_pipeline_sh, push_decimal, stage_command, stage_commands, PIPELINE_RUNTIME};
use indexmap::IndexMap;

fn ok() -> StageOutcome {
    StageOutcome { run_ok: true, command_ok: true, complete_ok: true }
}

fn command_fails() -> StageOutcome {
    StageOutcome { run_ok: true, command_ok: false, complete_ok: true }
}

fn demo_stages() -> IndexMap<String, String> {
    let mut m = IndexMap::new();
    m.insert("build".to_string(), "make".to_string());
    m.insert("run".to_string(), "make run".to_string());
    m
}

#[test]
fn decimal_text() {
    let mut s = String::from("x");
    push_decimal(&mut s, 0);
    assert_eq!(s, "x0");
    let mut s = String::new();
    push_decimal(&mut s, 1203);
    assert_eq!(s, "1203");
}

#[test]
fn stage_block_chains_hooks() {
    let block = stage_command(3, "build", "make");
    assert!(block.contains("run 3 && make && complete 3 || {"));
    assert!(block.contains("panic 3;\n  exit 1;"));
    assert!(block.contains("> Start build\\nmake\\n"));
    assert!(block.contains("> Failed build"));
    assert!(block.contains("> End build"));
    assert!(block.find("run 3").unwrap() < block.find("panic 3").unwrap());
}

#[test]
fn stage_blocks_follow_input_order() {
    let blocks = stage_commands(&demo_stages());
    assert_eq!(blocks.len(), 2);
    assert!(blocks[0].contains("run 0 && make && complete 0"));
    assert!(blocks[1].contains("run 1 && make run && complete 1"));
}

#[test]
fn demo_descriptor_compiles_to_two_stages() {
    let script = generate_pipeline_sh(&demo_stages()).unwrap();
    assert!(script.starts_with(PIPELINE_RUNTIME));
    assert!(script.contains("\n\nstages=(build run);\n\n"));
    let first = script.find("run 0 && make && complete 0").unwrap();
    let second = script.find("run 1 && make run && complete 1").unwrap();
    assert!(first < second);
    assert_eq!(script[PIPELINE_RUNTIME.len()..].matches("exit 1;").count(), 2);
}

#[test]
fn empty_command_is_compiled() {
    let mut m = IndexMap::new();
    m.insert("noop".to_string(), String::new());
    let script = generate_pipeline_sh(&m).unwrap();
    assert!(script.contains("stages=(noop);"));
    assert!(script.contains("run 0 && true && complete 0 || {"));
    assert!(!script.contains("&&  &&"));
}

#[test]
fn runtime_defines_hooks() {
    assert!(PIPELINE_RUNTIME.contains("run() {"));
    assert!(PIPELINE_RUNTIME.contains("complete() {"));
    assert!(PIPELINE_RUNTIME.contains("panic() {"));
    assert!(PIPELINE_RUNTIME.contains(">> \"$STATUS_LOG\""));
}

#[test]
fn failing_build_never_runs_next_stage() {
    let run = simulate(&vec![command_fails(), ok()]);
    assert_eq!(run.state, RunState::Failed(0));
    assert_eq!(run.trace, vec![Hook::Run(0), Hook::Command(0), Hook::Panic(0), Hook::Exit(1)]);
    assert!(!run.trace.contains(&Hook::Run(1)));
    assert!(!run.trace.contains(&Hook::Command(1)));
}

#[test]
fn all_stages_succeed_in_order() {
    let run = simulate(&vec![ok(), ok()]);
    assert_eq!(run.state, RunState::Completed);
    assert_eq!(
        run.trace,
        vec![
            Hook::Run(0),
            Hook::Command(0),
            Hook::Complete(0),
            Hook::Run(1),
            Hook::Command(1),
            Hook::Complete(1),
            Hook::Exit(0),
        ]
    );
}

#[test]
fn failed_run_hook_skips_command() {
    let run = simulate(&vec![ok(), StageOutcome { run_ok: false, command_ok: true, complete_ok: true }, ok()]);
    assert_eq!(run.state, RunState::Failed(1));
    assert_eq!(run.trace[3..].to_vec(), vec![Hook::Run(1), Hook::Panic(1), Hook::Exit(1)]);
}

#[test]
fn failed_complete_hook_stops_pipeline() {
    let run = simulate(&vec![StageOutcome { run_ok: true, command_ok: true, complete_ok: false }, ok()]);
    assert_eq!(run.state, RunState::Failed(0));
    assert_eq!(
        run.trace,
        vec![Hook::Run(0), Hook::Command(0), Hook::Complete(0), Hook::Panic(0), Hook::Exit(1)]
    );
}

#[test]
fn no_stages_exits_zero() {
    let run = simulate(&vec![]);
    assert_eq!(run.state, RunState::Completed);
    assert_eq!(run.trace, vec![Hook::Exit(0)]);
}

#[test]
fn machine_steps_one_stage_at_a_time() {
    let mut run = PipelineRun::new(2);
    assert_eq!(run.state, RunState::Pending);
    run.start();
    assert_eq!(run.state, RunState::Running(0));
    assert!(!run.is_finished());
    run.advance(ok());
    assert_eq!(run.state, RunState::Running(1));
    run.advance(command_fails());
    assert_eq!(run.state, RunState::Failed(1));
    assert!(run.is_finished());
}

#[test]
fn empty_stage_list_is_refused() {
    let m: IndexMap<String, String> = IndexMap::new();
    assert_eq!(generate_pipeline_sh(&m), Err(HmdError::DescriptorMalformed(Malformed::NoStages)));
}
