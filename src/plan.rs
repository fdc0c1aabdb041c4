//! Steps and plans: what a command asks to be done, as plain data.

use vstd::prelude::*;

verus! {

/// One side effect, as the runner hands it out.
pub enum ActionView {
    Run(Seq<char>),
    CreateDir(Seq<char>),
    WriteFile(Seq<char>, Seq<char>),
}

/// One side effect: a shell command line to run, a directory to create (with
/// its parents), or a file to write with the given contents.
#[derive(Clone, Debug)]
pub enum Action {
    Run(String),
    CreateDir(String),
    WriteFile(String, String),
}

impl View for Action {
    type V = ActionView;

    open spec fn view(&self) -> ActionView {
        match self {
            Action::Run(c) => ActionView::Run(c@),
            Action::CreateDir(p) => ActionView::CreateDir(p@),
            Action::WriteFile(p, t) => ActionView::WriteFile(p@, t@),
        }
    }
}

impl Action {
    /// A copy of this action.
    pub fn duplicate(&self) -> (r: Action)
        ensures
            r@ == self@,
    {
        match self {
            Action::Run(c) => Action::Run(c.clone()),
            Action::CreateDir(p) => Action::CreateDir(p.clone()),
            Action::WriteFile(p, t) => Action::WriteFile(p.clone(), t.clone()),
        }
    }
}

/// A step as its label, its failure message and its actions.
pub struct StepView {
    pub label: Seq<char>,
    pub failure: Seq<char>,
    pub actions: Seq<ActionView>,
}

/// A labelled unit of work. Its actions run in order; the first that fails
/// fails the step, and `failure` is the message that goes with it.
#[derive(Clone, Debug)]
pub struct Step {
    pub label: String,
    pub failure: String,
    pub actions: Vec<Action>,
}

impl View for Step {
    type V = StepView;

    open spec fn view(&self) -> StepView {
        StepView {
            label: self.label@,
            failure: self.failure@,
            actions: self.actions@.map_values(|a: Action| a@),
        }
    }
}

/// A plan as its steps, the final progress label and the closing line.
pub struct PlanView {
    pub steps: Seq<StepView>,
    pub complete: Seq<char>,
    pub closing: Seq<char>,
}

/// The ordered steps of one command, the progress label shown once all of
/// them have succeeded, and a closing line for the user (empty for none).
#[derive(Clone, Debug)]
pub struct Plan {
    pub steps: Vec<Step>,
    pub complete: String,
    pub closing: String,
}

impl View for Plan {
    type V = PlanView;

    open spec fn view(&self) -> PlanView {
        PlanView {
            steps: self.steps@.map_values(|s: Step| s@),
            complete: self.complete@,
            closing: self.closing@,
        }
    }
}

/// A step with a single action.
pub fn single_step(label: &str, failure: &str, action: Action) -> (r: Step)
    ensures
        r@ == (StepView { label: label@, failure: failure@, actions: seq![action@] }),
{
    let mut actions: Vec<Action> = Vec::new();
    actions.push(action);
    let r = Step { label: String::from_str(label), failure: String::from_str(failure), actions };
    assert(r@.actions =~= seq![action@]);
    r
}

/// A step with the actions given, in their order.
pub fn step_of(label: &str, failure: &str, actions: Vec<Action>) -> (r: Step)
    ensures
        r@ == (StepView {
            label: label@,
            failure: failure@,
            actions: actions@.map_values(|a: Action| a@),
        }),
{
    Step { label: String::from_str(label), failure: String::from_str(failure), actions }
}

} // verus!
