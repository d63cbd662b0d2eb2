//! What a compiled pipeline does when it runs, as a state machine over the
//! outcomes of its hooks and commands. Each stage block runs
//! `run i && command && complete i || { panic i; exit 1; }`; the events that
//! the script emits, in order, form its trace.
use vstd::prelude::*;

verus! {

/// One event of a pipeline run.
#[derive(Clone, Copy, Debug, PartialEq, Eq, Structural)]
pub enum Hook {
    /// The runtime's `run` hook of a stage was called.
    Run(usize),
    /// The stage's own command was started.
    Command(usize),
    /// The runtime's `complete` hook of a stage was called.
    Complete(usize),
    /// The runtime's `panic` hook of a stage was called.
    Panic(usize),
    /// The script exited with this status.
    Exit(u8),
}

/// How the three chained calls of one stage block turn out when called.
#[derive(Clone, Copy, Debug, PartialEq, Eq, Structural)]
pub struct StageOutcome {
    pub run_ok: bool,
    pub command_ok: bool,
    pub complete_ok: bool,
}

/// The state of a pipeline run.
#[derive(Clone, Copy, Debug, PartialEq, Eq, Structural)]
pub enum RunState {
    /// Not started.
    Pending,
    /// Every stage before this one completed; this one runs next.
    Running(usize),
    /// Every stage completed and the script exited with status 0.
    Completed,
    /// This stage failed and the script exited with status 1.
    Failed(usize),
}

pub open spec fn succeeds(o: StageOutcome) -> bool {
    o.run_ok && o.command_ok && o.complete_ok
}

/// The events of stage `i`'s block: each call of the `&&` chain happens only
/// when the one before succeeded; a failure anywhere calls `panic` and exits 1.
pub open spec fn block_trace(i: usize, o: StageOutcome) -> Seq<Hook> {
    let chain = if !o.run_ok {
        seq![Hook::Run(i)]
    } else if !o.command_ok {
        seq![Hook::Run(i), Hook::Command(i)]
    } else {
        seq![Hook::Run(i), Hook::Command(i), Hook::Complete(i)]
    };
    if succeeds(o) {
        chain
    } else {
        chain + seq![Hook::Panic(i), Hook::Exit(1)]
    }
}

/// The events of the script from stage `i` on, when stage `k` turns out as
/// `outcomes[k]`.
pub open spec fn trace_from(outcomes: Seq<StageOutcome>, i: nat) -> Seq<Hook>
    decreases outcomes.len() - i,
{
    if i >= outcomes.len() {
        seq![Hook::Exit(0)]
    } else if succeeds(outcomes[i as int]) {
        block_trace(i as usize, outcomes[i as int]) + trace_from(outcomes, i + 1)
    } else {
        block_trace(i as usize, outcomes[i as int])
    }
}

/// The events of a whole run.
pub open spec fn pipeline_trace(outcomes: Seq<StageOutcome>) -> Seq<Hook> {
    trace_from(outcomes, 0)
}

/// The stage that an event belongs to; `None` for the exit.
pub open spec fn stage_of(h: Hook) -> Option<usize> {
    match h {
        Hook::Run(i) => Some(i),
        Hook::Command(i) => Some(i),
        Hook::Complete(i) => Some(i),
        Hook::Panic(i) => Some(i),
        Hook::Exit(_) => None,
    }
}

/// Whether the event enters its stage: the stage's `run` hook or its command.
pub open spec fn enters(h: Hook) -> bool {
    h is Run || h is Command
}

/// A pipeline run in progress: its state and the events so far.
pub struct PipelineRun {
    pub stage_count: usize,
    pub state: RunState,
    pub trace: Vec<Hook>,
}

impl PipelineRun {
    /// A run of `stage_count` stages that has not started.
    pub fn new(stage_count: usize) -> (r: PipelineRun)
        ensures
            r.stage_count == stage_count,
            r.state == RunState::Pending,
            r.trace@ == Seq::<Hook>::empty(),
    {
        PipelineRun { stage_count, state: RunState::Pending, trace: Vec::new() }
    }

    /// Starts the run: the first stage is next, or, with no stages, the
    /// script exits 0.
    pub fn start(&mut self)
        requires
            old(self).state == RunState::Pending,
        ensures
            final(self).stage_count == old(self).stage_count,
            old(self).stage_count == 0 ==> final(self).state == RunState::Completed
                && final(self).trace@ == old(self).trace@.push(Hook::Exit(0)),
            old(self).stage_count > 0 ==> final(self).state == RunState::Running(0)
                && final(self).trace@ == old(self).trace@,
    {
        if self.stage_count == 0 {
            self.state = RunState::Completed;
            self.trace.push(Hook::Exit(0));
        } else {
            self.state = RunState::Running(0);
        }
    }

    /// Runs the block of the current stage, whose calls turn out as `o`.
    pub fn advance(&mut self, o: StageOutcome)
        requires
            old(self).state matches RunState::Running(i) && i < old(self).stage_count,
        ensures
            final(self).stage_count == old(self).stage_count,
            ({
                let i = old(self).state->Running_0;
                &&& !succeeds(o) ==> final(self).state == RunState::Failed(i)
                    && final(self).trace@ == old(self).trace@ + block_trace(i, o)
                &&& succeeds(o) && i + 1 < old(self).stage_count ==> final(self).state
                    == RunState::Running((i + 1) as usize) && final(self).trace@
                    == old(self).trace@ + block_trace(i, o)
                &&& succeeds(o) && i + 1 == old(self).stage_count ==> final(self).state
                    == RunState::Completed && final(self).trace@ == old(self).trace@
                    + block_trace(i, o) + seq![Hook::Exit(0)]
            }),
    {
        let i = match self.state {
            RunState::Running(i) => i,
            _ => 0,
        };
        self.trace.push(Hook::Run(i));
        if o.run_ok {
            self.trace.push(Hook::Command(i));
            if o.command_ok {
                self.trace.push(Hook::Complete(i));
            }
        }
        if o.run_ok && o.command_ok && o.complete_ok {
            if i + 1 < self.stage_count {
                self.state = RunState::Running(i + 1);
            } else {
                self.state = RunState::Completed;
                self.trace.push(Hook::Exit(0));
            }
        } else {
            self.trace.push(Hook::Panic(i));
            self.trace.push(Hook::Exit(1));
            self.state = RunState::Failed(i);
        }
        proof {
            let t = block_trace(i, o);
            assert(self.trace@ =~= old(self).trace@ + t
                || self.trace@ =~= old(self).trace@ + t + seq![Hook::Exit(0)]);
        }
    }

    /// Whether the script has exited.
    pub fn is_finished(&self) -> (r: bool)
        ensures
            r <==> (self.state is Completed || self.state is Failed),
    {
        match self.state {
            RunState::Completed => true,
            RunState::Failed(_) => true,
            _ => false,
        }
    }
}

/// Runs a whole pipeline whose stage `k` turns out as `outcomes[k]`.
pub fn simulate(outcomes: &Vec<StageOutcome>) -> (r: PipelineRun)
    ensures
        r.trace@ == pipeline_trace(outcomes@),
        r.stage_count == outcomes@.len(),
        r.state is Completed || r.state is Failed,
        r.state == RunState::Completed <==> forall|k: int|
            0 <= k < outcomes@.len() ==> succeeds(#[trigger] outcomes@[k]),
        r.state matches RunState::Failed(k) ==> k < outcomes@.len() && !succeeds(outcomes@[k as int])
            && forall|j: int| 0 <= j < k ==> succeeds(#[trigger] outcomes@[j]),
{
    let n = outcomes.len();
    let mut run = PipelineRun::new(n);
    run.start();
    let mut i: usize = 0;
    while !run.is_finished()
        invariant
            run.stage_count == n,
            n == outcomes@.len(),
            run.state is Running ==> run.state == RunState::Running(i) && i < n,
            run.state is Pending ==> false,
            run.state is Running ==> trace_from(outcomes@, 0) == run.trace@ + trace_from(outcomes@, i as nat),
            !(run.state is Running) ==> trace_from(outcomes@, 0) == run.trace@,
            run.state is Running ==> forall|k: int| 0 <= k < i ==> succeeds(#[trigger] outcomes@[k]),
            run.state is Completed ==> forall|k: int| 0 <= k < n ==> succeeds(#[trigger] outcomes@[k]),
            run.state is Failed ==> run.state->Failed_0 < n && !succeeds(outcomes@[run.state->Failed_0 as int]),
            run.state is Failed ==> forall|j: int| 0 <= j < run.state->Failed_0 ==> succeeds(#[trigger] outcomes@[j]),
        decreases n - i + (if run.state is Running { 1int } else { 0int }),
    {
        let ghost before = run.trace@;
        run.advance(outcomes[i]);
        proof {
            let o = outcomes@[i as int];
            if succeeds(o) {
                assert(trace_from(outcomes@, i as nat) == block_trace(i, o) + trace_from(outcomes@, (i + 1) as nat));
                assert(trace_from(outcomes@, 0) =~= before + block_trace(i, o) + trace_from(outcomes@, (i + 1) as nat));
                if i + 1 == n {
                    assert(trace_from(outcomes@, (i + 1) as nat) == seq![Hook::Exit(0)]);
                }
            } else {
                assert(trace_from(outcomes@, i as nat) == block_trace(i, o));
            }
        }
        if i + 1 < n {
            i = i + 1;
        }
    }
    proof {
        if run.state is Completed {
            assert(forall|k: int| 0 <= k < n ==> succeeds(#[trigger] outcomes@[k]));
        }
    }
    run
}

/// Every event in the block of stage `i` belongs to stage `i` or is the exit.
proof fn lemma_block_stage(i: usize, o: StageOutcome)
    ensures
        forall|p: int| 0 <= p < block_trace(i, o).len() ==> (#[trigger] stage_of(block_trace(i, o)[p]))
            is None || stage_of(block_trace(i, o)[p]) == Some(i),
{
}

/// Every event of the run from stage `s` on belongs to stage `s` or later.
proof fn lemma_stage_bound(o: Seq<StageOutcome>, s: nat)
    requires
        o.len() <= usize::MAX,
    ensures
        forall|p: int| 0 <= p < trace_from(o, s).len() && (#[trigger] stage_of(trace_from(o, s)[p])) is Some
            ==> stage_of(trace_from(o, s)[p])->0 >= s,
    decreases o.len() - s,
{
    if s < o.len() {
        let b = block_trace(s as usize, o[s as int]);
        lemma_block_stage(s as usize, o[s as int]);
        if succeeds(o[s as int]) {
            lemma_stage_bound(o, s + 1);
            let t = trace_from(o, s);
            let tail = trace_from(o, s + 1);
            assert forall|p: int| 0 <= p < t.len() && (#[trigger] stage_of(t[p])) is Some
                implies stage_of(t[p])->0 >= s by {
                if p < b.len() {
                    assert(t[p] == b[p]);
                } else {
                    assert(t[p] == tail[p - b.len()]);
                }
            }
        }
    }
}

/// Stage indices never decrease along the run from stage `s` on, and a stage
/// after `s` is entered only after the stage before it completed.
proof fn lemma_order_from(o: Seq<StageOutcome>, s: nat)
    requires
        o.len() <= usize::MAX,
    ensures
        forall|p: int, q: int|
            0 <= p < q < trace_from(o, s).len() && (#[trigger] stage_of(trace_from(o, s)[p])) is Some
                && (#[trigger] stage_of(trace_from(o, s)[q])) is Some
                ==> stage_of(trace_from(o, s)[p])->0 <= stage_of(trace_from(o, s)[q])->0,
        forall|p: int|
            0 <= p < trace_from(o, s).len() && enters(#[trigger] trace_from(o, s)[p]) && stage_of(trace_from(o, s)[p])->0 > s
                ==> exists|q: int| 0 <= q < p && #[trigger] trace_from(o, s)[q] == Hook::Complete((stage_of(trace_from(o, s)[p])->0 - 1) as usize),
    decreases o.len() - s,
{
    let t = trace_from(o, s);
    if s < o.len() {
        let b = block_trace(s as usize, o[s as int]);
        lemma_block_stage(s as usize, o[s as int]);
        if succeeds(o[s as int]) {
            let tail = trace_from(o, s + 1);
            lemma_order_from(o, s + 1);
            lemma_stage_bound(o, s + 1);
            assert(b.len() == 3);
            assert forall|p: int, q: int|
                0 <= p < q < t.len() && (#[trigger] stage_of(t[p])) is Some && (#[trigger] stage_of(t[q])) is Some
                implies stage_of(t[p])->0 <= stage_of(t[q])->0 by {
                if q < 3 {
                    assert(t[p] == b[p] && t[q] == b[q]);
                } else if p < 3 {
                    assert(t[p] == b[p] && t[q] == tail[q - 3]);
                    assert(stage_of(tail[q - 3])->0 >= s + 1);
                } else {
                    assert(t[p] == tail[p - 3] && t[q] == tail[q - 3]);
                }
            }
            assert forall|p: int|
                0 <= p < t.len() && enters(#[trigger] t[p]) && stage_of(t[p])->0 > s
                implies exists|q: int| 0 <= q < p && #[trigger] t[q] == Hook::Complete((stage_of(t[p])->0 - 1) as usize) by {
                let j = stage_of(t[p])->0;
                if p < 3 {
                    assert(t[p] == b[p]);
                } else {
                    assert(t[p] == tail[p - 3]);
                    if j > s + 1 {
                        let q = choose|q: int| 0 <= q < p - 3 && #[trigger] tail[q] == Hook::Complete((j - 1) as usize);
                        assert(t[q + 3] == tail[q]);
                    } else {
                        assert(t[2] == Hook::Complete(s as usize));
                    }
                }
            }
        } else {
            assert forall|p: int|
                0 <= p < t.len() && enters(#[trigger] t[p]) && stage_of(t[p])->0 > s
                implies exists|q: int| 0 <= q < p && #[trigger] t[q] == Hook::Complete((stage_of(t[p])->0 - 1) as usize) by {
                let j = stage_of(t[p])->0;
                assert(stage_of(t[p]) == Some(s as usize));
            }
        }
    }
}

/// A run visits the stages in input order: the stage of its events never
/// decreases, and no stage is entered (its `run` hook or its command) unless
/// the `complete` hook of the stage before it was called earlier.
pub proof fn lemma_stages_run_in_order(outcomes: Seq<StageOutcome>)
    requires
        outcomes.len() <= usize::MAX,
    ensures
        forall|p: int, q: int|
            0 <= p < q < pipeline_trace(outcomes).len()
                && (#[trigger] stage_of(pipeline_trace(outcomes)[p])) is Some
                && (#[trigger] stage_of(pipeline_trace(outcomes)[q])) is Some
                ==> stage_of(pipeline_trace(outcomes)[p])->0 <= stage_of(pipeline_trace(outcomes)[q])->0,
        forall|p: int|
            0 <= p < pipeline_trace(outcomes).len() && enters(#[trigger] pipeline_trace(outcomes)[p])
                && stage_of(pipeline_trace(outcomes)[p])->0 > 0
                ==> exists|q: int| 0 <= q < p && #[trigger] pipeline_trace(outcomes)[q]
                == Hook::Complete((stage_of(pipeline_trace(outcomes)[p])->0 - 1) as usize),
{
    lemma_order_from(outcomes, 0);
}

/// From stage `s` on: once the command of stage `i` has started and failed,
/// the run ends with that command, `panic i` and exit 1, and no later stage
/// is entered.
proof fn lemma_failure_from(o: Seq<StageOutcome>, s: nat, i: usize)
    requires
        o.len() <= usize::MAX,
        s <= i < o.len(),
        !o[i as int].command_ok,
        trace_from(o, s).contains(Hook::Command(i)),
    ensures
        trace_from(o, s).len() >= 3,
        trace_from(o, s)[trace_from(o, s).len() - 3] == Hook::Command(i),
        trace_from(o, s)[trace_from(o, s).len() - 2] == Hook::Panic(i),
        trace_from(o, s)[trace_from(o, s).len() - 1] == Hook::Exit(1),
        forall|p: int| 0 <= p < trace_from(o, s).len() && (#[trigger] trace_from(o, s)[p]) is Run
            ==> trace_from(o, s)[p]->Run_0 <= i,
    decreases i - s,
{
    let t = trace_from(o, s);
    let b = block_trace(s as usize, o[s as int]);
    lemma_block_stage(s as usize, o[s as int]);
    if s == i {
        assert(o[s as int].run_ok) by {
            let p = choose|p: int| 0 <= p < t.len() && t[p] == Hook::Command(i);
            assert(stage_of(t[p]) == Some(i));
        }
        assert(t =~= seq![Hook::Run(i), Hook::Command(i), Hook::Panic(i), Hook::Exit(1)]);
    } else {
        let p = choose|p: int| 0 <= p < t.len() && t[p] == Hook::Command(i);
        if !succeeds(o[s as int]) {
            assert(t == b);
            assert(stage_of(t[p]) == Some(i));
        } else {
            let tail = trace_from(o, s + 1);
            assert(t == b + tail);
            assert(b.len() == 3);
            if p < 3 {
                assert(t[p] == b[p]);
                assert(stage_of(t[p]) == Some(i));
            }
            assert(t[p] == tail[p - 3]);
            assert(tail.contains(Hook::Command(i)));
            lemma_failure_from(o, s + 1, i);
            assert forall|p: int| 0 <= p < t.len() && (#[trigger] t[p]) is Run implies t[p]->Run_0 <= i by {
                if p < 3 {
                    assert(t[p] == b[p]);
                } else {
                    assert(t[p] == tail[p - 3]);
                }
            }
        }
    }
}

/// When the command of a stage is started and fails, the script calls that
/// stage's `panic` hook right after it and then exits with status 1; no later
/// stage's `run` hook is called.
pub proof fn lemma_failed_command_stops_pipeline(outcomes: Seq<StageOutcome>, i: usize)
    requires
        outcomes.len() <= usize::MAX,
        i < outcomes.len(),
        !outcomes[i as int].command_ok,
        pipeline_trace(outcomes).contains(Hook::Command(i)),
    ensures
        pipeline_trace(outcomes).len() >= 3,
        pipeline_trace(outcomes)[pipeline_trace(outcomes).len() - 3] == Hook::Command(i),
        pipeline_trace(outcomes)[pipeline_trace(outcomes).len() - 2] == Hook::Panic(i),
        pipeline_trace(outcomes).last() == Hook::Exit(1),
        forall|p: int|
            0 <= p < pipeline_trace(outcomes).len() && (#[trigger] pipeline_trace(outcomes)[p]) is Run
                ==> pipeline_trace(outcomes)[p]->Run_0 <= i,
{
    lemma_failure_from(outcomes, 0, i);
}

} // verus!
