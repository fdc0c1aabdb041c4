//! The step runner: hands out the actions of a plan one at a time, in order,
//! and stops for good at the first one that fails.
//!
//! The runner decides and the caller acts: `current` says what to do next,
//! the caller does it and passes the outcome to `report`.

use vstd::prelude::*;
use crate::plan::{Action, ActionView, Plan, PlanView};
use crate::progress::{
    Progress, ProgressOp, ProgressView, progress_apply, progress_start,
};
use crate::text::join3;

verus! {

/// Where a run stands.
#[derive(Clone, Copy, Debug, PartialEq, Eq, Structural)]
pub enum RunStatus {
    /// An action is waiting to be performed.
    Running,
    /// An action failed; nothing more is performed.
    Failed,
    /// Every action succeeded.
    Finished,
}

/// A runner as its plan, its place in it, its progress and its status.
pub struct RunnerView {
    pub plan: PlanView,
    pub step: nat,
    pub action: nat,
    pub progress: ProgressView,
    pub status: RunStatus,
    pub message: Seq<char>,
}

/// What the caller is to do next, as data.
pub enum DirectiveView {
    Perform(ActionView),
    Abort(Seq<char>),
    Complete,
}

/// What the caller is to do next: perform an action and report its outcome,
/// stop with the failure message (exit status 1), or stop with success.
#[derive(Debug)]
pub enum Directive {
    Perform(Action),
    Abort(String),
    Complete,
}

impl View for Directive {
    type V = DirectiveView;

    open spec fn view(&self) -> DirectiveView {
        match self {
            Directive::Perform(a) => DirectiveView::Perform(a@),
            Directive::Abort(m) => DirectiveView::Abort(m@),
            Directive::Complete => DirectiveView::Complete,
        }
    }
}

/// The message shown when a step fails: the step's own message, then what
/// went wrong.
pub open spec fn failure_message(failure: Seq<char>, detail: Seq<char>) -> Seq<char> {
    failure + ": "@ + detail
}

/// The outcome of an action, as data.
pub open spec fn outcome_view(o: Result<(), String>) -> Result<(), Seq<char>> {
    match o {
        Ok(()) => Ok(()),
        Err(d) => Err(d@),
    }
}

/// The number of actions of step `i`.
pub open spec fn actions_of(v: RunnerView, i: nat) -> nat {
    v.plan.steps[i as int].actions.len()
}

/// A runner state that is consistent: the position of the progress is the
/// number of finished steps, its total the number of steps, and a running
/// state points at an action that exists.
pub open spec fn runner_wf(v: RunnerView) -> bool {
    &&& v.step <= v.plan.steps.len()
    &&& v.progress.total == v.plan.steps.len()
    &&& v.progress.position == v.step
    &&& v.status == RunStatus::Running ==> v.step < v.plan.steps.len() && v.action < actions_of(v, v.step)
    &&& v.status == RunStatus::Finished ==> v.step == v.plan.steps.len()
}

/// What a state between actions may look like before it is settled: the
/// current step may have no action left.
pub open spec fn runner_pre(v: RunnerView) -> bool {
    &&& v.step <= v.plan.steps.len()
    &&& v.progress.total == v.plan.steps.len()
    &&& v.progress.position == v.step
    &&& v.status == RunStatus::Running && v.step < v.plan.steps.len() ==> v.action <= actions_of(v, v.step)
    &&& v.status == RunStatus::Finished ==> v.step == v.plan.steps.len()
}

/// Moves past every step that has no action left: each one advances the
/// progress and labels it with the next step's label. Past the last step the
/// run is finished and the progress shows the plan's final label.
pub open spec fn settle(v: RunnerView) -> RunnerView
    decreases v.plan.steps.len() - v.step,
{
    if v.status == RunStatus::Running && v.step < v.plan.steps.len() {
        if v.action < actions_of(v, v.step) {
            v
        } else {
            let advanced = progress_apply(v.progress, ProgressOp::Advance);
            let next = v.step + 1;
            let labelled = if next < v.plan.steps.len() {
                progress_apply(advanced, ProgressOp::SetLabel(v.plan.steps[next as int].label))
            } else {
                advanced
            };
            settle(RunnerView { step: next, action: 0, progress: labelled, ..v })
        }
    } else if v.status == RunStatus::Running {
        RunnerView {
            status: RunStatus::Finished,
            progress: progress_apply(v.progress, ProgressOp::Finish(v.plan.complete)),
            ..v
        }
    } else {
        v
    }
}

/// The runner of plan `p` before any action: its progress counts the steps
/// and shows the first step's label.
pub open spec fn runner_start(p: PlanView) -> RunnerView {
    let fresh = progress_start(p.steps.len());
    let labelled = if p.steps.len() > 0 {
        progress_apply(fresh, ProgressOp::SetLabel(p.steps[0].label))
    } else {
        fresh
    };
    settle(
        RunnerView {
            plan: p,
            step: 0,
            action: 0,
            progress: labelled,
            status: RunStatus::Running,
            message: Seq::empty(),
        },
    )
}

/// The runner after the outcome of the action it handed out. A failure stops
/// the run with the step's failure message; a success moves to the next
/// action. A runner that is not running ignores outcomes.
pub open spec fn runner_after(v: RunnerView, outcome: Result<(), Seq<char>>) -> RunnerView {
    if v.status != RunStatus::Running {
        v
    } else {
        match outcome {
            Err(d) => RunnerView {
                status: RunStatus::Failed,
                message: failure_message(v.plan.steps[v.step as int].failure, d),
                ..v
            },
            Ok(()) => settle(RunnerView { action: v.action + 1, ..v }),
        }
    }
}

/// What a runner in state `v` asks for.
pub open spec fn directive_of(v: RunnerView) -> DirectiveView {
    match v.status {
        RunStatus::Running => DirectiveView::Perform(
            v.plan.steps[v.step as int].actions[v.action as int],
        ),
        RunStatus::Failed => DirectiveView::Abort(v.message),
        RunStatus::Finished => DirectiveView::Complete,
    }
}

/// The actions performed, as (step, action) places, when the outcomes of the
/// actions handed out are `outcomes`, first to last.
pub open spec fn runner_trace(v: RunnerView, outcomes: Seq<Result<(), Seq<char>>>) -> Seq<(nat, nat)>
    decreases outcomes.len(),
{
    if v.status == RunStatus::Running && outcomes.len() > 0 {
        seq![(v.step, v.action)] + runner_trace(runner_after(v, outcomes[0]), outcomes.drop_first())
    } else {
        Seq::empty()
    }
}

/// The state a run reaches when the outcomes of the actions handed out are
/// `outcomes`, first to last (those past the end of the run are not used).
pub open spec fn runner_run(v: RunnerView, outcomes: Seq<Result<(), Seq<char>>>) -> RunnerView
    decreases outcomes.len(),
{
    if v.status == RunStatus::Running && outcomes.len() > 0 {
        runner_run(runner_after(v, outcomes[0]), outcomes.drop_first())
    } else {
        v
    }
}

/// Settling keeps a state consistent and never moves back.
pub proof fn lemma_settle(v: RunnerView)
    requires
        runner_pre(v),
    ensures
        runner_wf(settle(v)),
        settle(v).step >= v.step,
        settle(v).plan == v.plan,
        settle(v).status != RunStatus::Failed || v.status == RunStatus::Failed,
        settle(v).step == v.step ==> settle(v).action == v.action,
    decreases v.plan.steps.len() - v.step,
{
    if v.status == RunStatus::Running && v.step < v.plan.steps.len() {
        if v.action >= actions_of(v, v.step) {
            let advanced = progress_apply(v.progress, ProgressOp::Advance);
            let next = v.step + 1;
            let labelled = if next < v.plan.steps.len() {
                progress_apply(advanced, ProgressOp::SetLabel(v.plan.steps[next as int].label))
            } else {
                advanced
            };
            lemma_settle(RunnerView { step: next, action: 0, progress: labelled, ..v });
        }
    }
}

/// An outcome keeps a consistent state consistent, and a success moves
/// strictly forward: to a later action of the same step or to a later step.
pub proof fn lemma_after(v: RunnerView, outcome: Result<(), Seq<char>>)
    requires
        runner_wf(v),
    ensures
        runner_wf(runner_after(v, outcome)),
        runner_after(v, outcome).plan == v.plan,
        runner_after(v, outcome).step >= v.step,
        v.status == RunStatus::Running && outcome is Ok ==> runner_after(v, outcome).step > v.step
            || runner_after(v, outcome).action > v.action,
        v.status == RunStatus::Running && outcome is Err ==> runner_after(v, outcome).status
            == RunStatus::Failed,
{
    if v.status == RunStatus::Running && outcome is Ok {
        lemma_settle(RunnerView { action: v.action + 1, ..v });
    }
}

/// A run performs at most one action per outcome.
pub proof fn lemma_trace_len(v: RunnerView, outcomes: Seq<Result<(), Seq<char>>>)
    ensures
        runner_trace(v, outcomes).len() <= outcomes.len(),
    decreases outcomes.len(),
{
    if v.status == RunStatus::Running && outcomes.len() > 0 {
        lemma_trace_len(runner_after(v, outcomes[0]), outcomes.drop_first());
    }
}

/// A run never goes back to an earlier step.
pub proof fn lemma_trace_steps_from(v: RunnerView, outcomes: Seq<Result<(), Seq<char>>>)
    requires
        runner_wf(v),
    ensures
        forall|i: int|
            0 <= i < runner_trace(v, outcomes).len() ==> #[trigger] runner_trace(v, outcomes)[i].0
                >= v.step,
    decreases outcomes.len(),
{
    if v.status == RunStatus::Running && outcomes.len() > 0 {
        let w = runner_after(v, outcomes[0]);
        let rest = outcomes.drop_first();
        let t = runner_trace(v, outcomes);
        lemma_after(v, outcomes[0]);
        lemma_trace_steps_from(w, rest);
        assert forall|i: int| 0 <= i < t.len() implies #[trigger] t[i].0 >= v.step by {
            if i > 0 {
                assert(t[i] == runner_trace(w, rest)[i - 1]);
            }
        }
    }
}

/// Fail-fast: when the action performed at position `j` of a run fails, it is
/// the last action performed, and every action performed belongs to its step
/// or an earlier one. So no later step ever runs.
pub proof fn lemma_fail_fast(v: RunnerView, outcomes: Seq<Result<(), Seq<char>>>, j: int)
    requires
        runner_wf(v),
        0 <= j < runner_trace(v, outcomes).len(),
        outcomes[j] is Err,
    ensures
        runner_trace(v, outcomes).len() == j + 1,
        forall|i: int|
            0 <= i < runner_trace(v, outcomes).len() ==> #[trigger] runner_trace(v, outcomes)[i].0
                <= runner_trace(v, outcomes)[j].0,
    decreases outcomes.len(),
{
    let t = runner_trace(v, outcomes);
    let w = runner_after(v, outcomes[0]);
    let rest = outcomes.drop_first();
    lemma_trace_len(v, outcomes);
    lemma_after(v, outcomes[0]);
    if j == 0 {
        assert(w.status == RunStatus::Failed);
        assert(runner_trace(w, rest) =~= Seq::empty());
    } else {
        if outcomes[0] is Err {
            assert(runner_trace(w, rest) =~= Seq::empty());
        }
        assert(rest[j - 1] == outcomes[j]);
        lemma_fail_fast(w, rest, j - 1);
        lemma_trace_steps_from(w, rest);
        assert forall|i: int| 0 <= i < t.len() implies #[trigger] t[i].0 <= t[j].0 by {
            if i > 0 {
                assert(t[i] == runner_trace(w, rest)[i - 1]);
            } else {
                assert(t[j] == runner_trace(w, rest)[j - 1]);
            }
        }
    }
}

/// Whatever the outcomes, the progress of a run never passes its total, never
/// moves back, and its total stays the number of steps.
pub proof fn lemma_run_progress_bounded(v: RunnerView, outcomes: Seq<Result<(), Seq<char>>>)
    requires
        runner_wf(v),
    ensures
        runner_wf(runner_run(v, outcomes)),
        runner_run(v, outcomes).progress.position <= runner_run(v, outcomes).progress.total,
        runner_run(v, outcomes).progress.total == v.progress.total,
        runner_run(v, outcomes).progress.position >= v.progress.position,
    decreases outcomes.len(),
{
    if v.status == RunStatus::Running && outcomes.len() > 0 {
        lemma_after(v, outcomes[0]);
        lemma_run_progress_bounded(runner_after(v, outcomes[0]), outcomes.drop_first());
    }
}

/// Runs the steps of one plan, one action at a time.
pub struct Runner {
    plan: Plan,
    step: usize,
    action: usize,
    progress: Progress,
    status: RunStatus,
    message: String,
}

impl View for Runner {
    type V = RunnerView;

    closed spec fn view(&self) -> RunnerView {
        RunnerView {
            plan: self.plan@,
            step: self.step as nat,
            action: self.action as nat,
            progress: self.progress@,
            status: self.status,
            message: self.message@,
        }
    }
}

impl Runner {
    /// A runner at the start of `plan`.
    pub fn new(plan: Plan) -> (r: Runner)
        ensures
            r@ == runner_start(plan@),
            runner_wf(r@),
    {
        let ghost pv = plan@;
        let mut progress = Progress::new(plan.steps.len() as u64);
        if plan.steps.len() > 0 {
            progress.set_message(plan.steps[0].label.as_str());
        }
        let mut r = Runner {
            plan,
            step: 0,
            action: 0,
            progress,
            status: RunStatus::Running,
            message: String::new(),
        };
        proof {
            lemma_settle(r@);
        }
        r.settle();
        r
    }

    /// Moves past the steps that have no action left (see `settle`).
    fn settle(&mut self)
        requires
            runner_pre(old(self)@),
        ensures
            final(self)@ == settle(old(self)@),
    {
        while self.status == RunStatus::Running && self.step < self.plan.steps.len()
            && self.action >= self.plan.steps[self.step].actions.len()
            invariant
                runner_pre(self@),
                settle(self@) == settle(old(self)@),
            decreases self.plan.steps.len() - self.step,
        {
            self.progress.inc();
            self.step = self.step + 1;
            self.action = 0;
            if self.step < self.plan.steps.len() {
                self.progress.set_message(self.plan.steps[self.step].label.as_str());
            }
        }
        if self.status == RunStatus::Running && self.step >= self.plan.steps.len() {
            self.status = RunStatus::Finished;
            self.progress.finish_with_message(self.plan.complete.as_str());
        }
    }

    /// What to do next.
    pub fn current(&self) -> (r: Directive)
        requires
            runner_wf(self@),
        ensures
            r@ == directive_of(self@),
    {
        match self.status {
            RunStatus::Running => Directive::Perform(
                self.plan.steps[self.step].actions[self.action].duplicate(),
            ),
            RunStatus::Failed => Directive::Abort(self.message.clone()),
            RunStatus::Finished => Directive::Complete,
        }
    }

    /// Takes the outcome of the action that `current` handed out: `Ok` when
    /// it succeeded, or what went wrong.
    pub fn report(&mut self, outcome: Result<(), String>)
        requires
            runner_wf(old(self)@),
        ensures
            final(self)@ == runner_after(old(self)@, outcome_view(outcome)),
            runner_wf(final(self)@),
    {
        proof {
            lemma_after(self@, outcome_view(outcome));
        }
        if self.status != RunStatus::Running {
            return;
        }
        match outcome {
            Err(detail) => {
                self.message = join3(
                    self.plan.steps[self.step].failure.as_str(),
                    ": ",
                    detail.as_str(),
                );
                self.status = RunStatus::Failed;
            },
            Ok(()) => {
                let n = self.plan.steps[self.step].actions.len();
                assert(self.action < n);
                self.action = self.action + 1;
                self.settle();
            },
        }
    }

    /// Where the run stands.
    pub fn status(&self) -> (r: RunStatus)
        ensures
            r == self@.status,
    {
        self.status
    }

    /// The exit status that the run calls for: none while it runs, 0 once it
    /// has finished, 1 once a step has failed.
    pub fn exit_code(&self) -> (r: Option<i32>)
        ensures
            r == match self@.status {
                RunStatus::Running => None,
                RunStatus::Finished => Some(0i32),
                RunStatus::Failed => Some(1i32),
            },
    {
        match self.status {
            RunStatus::Running => None,
            RunStatus::Finished => Some(0),
            RunStatus::Failed => Some(1),
        }
    }

    /// The progress of the run.
    pub fn progress(&self) -> (r: &Progress)
        ensures
            r@ == self@.progress,
    {
        &self.progress
    }
}

} // verus!
