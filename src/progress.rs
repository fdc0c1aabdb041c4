//! Progress over a fixed number of steps: a position that only moves forward
//! and never passes the total, and a label for the current step.

use vstd::prelude::*;

verus! {

/// A progress state as numbers and a label.
pub struct ProgressView {
    pub position: nat,
    pub total: nat,
    pub label: Seq<char>,
    pub finished: bool,
}

/// One operation on a progress state.
pub enum ProgressOp {
    SetLabel(Seq<char>),
    Advance,
    Finish(Seq<char>),
}

/// A fresh progress state over `total` steps.
pub open spec fn progress_start(total: nat) -> ProgressView {
    ProgressView { position: 0, total, label: Seq::empty(), finished: false }
}

/// The state after `op`. Advancing past the total changes nothing; finishing
/// moves the position to the total.
pub open spec fn progress_apply(v: ProgressView, op: ProgressOp) -> ProgressView {
    match op {
        ProgressOp::SetLabel(l) => ProgressView { label: l, ..v },
        ProgressOp::Advance => ProgressView {
            position: if v.position < v.total { v.position + 1 } else { v.position },
            ..v
        },
        ProgressOp::Finish(l) => ProgressView { position: v.total, label: l, finished: true, ..v },
    }
}

/// The state after the operations `ops`, first to last.
pub open spec fn progress_apply_all(v: ProgressView, ops: Seq<ProgressOp>) -> ProgressView
    decreases ops.len(),
{
    if ops.len() == 0 {
        v
    } else {
        progress_apply_all(progress_apply(v, ops[0]), ops.drop_first())
    }
}

/// Progress through a known number of steps.
pub struct Progress {
    position: u64,
    total: u64,
    label: String,
    finished: bool,
}

impl View for Progress {
    type V = ProgressView;

    closed spec fn view(&self) -> ProgressView {
        ProgressView {
            position: self.position as nat,
            total: self.total as nat,
            label: self.label@,
            finished: self.finished,
        }
    }
}

impl Progress {
    #[verifier::type_invariant]
    spec fn bounded(&self) -> bool {
        self.position <= self.total
    }

    /// Progress over `total` steps, at the start.
    pub fn new(total: u64) -> (r: Progress)
        ensures
            r@ == progress_start(total as nat),
    {
        Progress { position: 0, total, label: String::new(), finished: false }
    }

    /// Shows `label` as the current step's.
    pub fn set_message(&mut self, label: &str)
        ensures
            final(self)@ == progress_apply(old(self)@, ProgressOp::SetLabel(label@)),
    {
        proof {
            use_type_invariant(&*self);
        }
        self.label = String::from_str(label);
    }

    /// Moves one step forward; at the total it stays where it is.
    pub fn inc(&mut self)
        ensures
            final(self)@ == progress_apply(old(self)@, ProgressOp::Advance),
    {
        proof {
            use_type_invariant(&*self);
        }
        if self.position < self.total {
            self.position = self.position + 1;
        }
    }

    /// Marks the end: the position becomes the total, with a final label.
    pub fn finish_with_message(&mut self, label: &str)
        ensures
            final(self)@ == progress_apply(old(self)@, ProgressOp::Finish(label@)),
    {
        self.position = self.total;
        self.label = String::from_str(label);
        self.finished = true;
    }

    /// How many steps are done.
    pub fn position(&self) -> (r: u64)
        ensures
            r as nat == self@.position,
            self@.position <= self@.total,
    {
        proof {
            use_type_invariant(self);
        }
        self.position
    }

    /// How many steps there are.
    pub fn total(&self) -> (r: u64)
        ensures
            r as nat == self@.total,
    {
        self.total
    }

    /// The label shown now.
    pub fn label(&self) -> (r: &String)
        ensures
            r@ == self@.label,
    {
        &self.label
    }

    /// Whether the end has been marked.
    pub fn is_finished(&self) -> (r: bool)
        ensures
            r == self@.finished,
    {
        self.finished
    }
}

/// Whatever operations are applied, in whatever order, to progress that
/// starts within its total, the position stays within the total, never moves
/// back, and the total never changes.
pub proof fn lemma_progress_never_exceeds_total(v: ProgressView, ops: Seq<ProgressOp>)
    requires
        v.position <= v.total,
    ensures
        progress_apply_all(v, ops).position <= progress_apply_all(v, ops).total,
        progress_apply_all(v, ops).total == v.total,
        progress_apply_all(v, ops).position >= v.position,
    decreases ops.len(),
{
    if ops.len() > 0 {
        lemma_progress_never_exceeds_total(progress_apply(v, ops[0]), ops.drop_first());
    }
}

} // verus!
