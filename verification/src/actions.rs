//! Membership-change primitives and the ordered pipeline that runs them.

use vstd::prelude::*;

use crate::descriptor::ReplicaDesc;

verus! {

/// A single membership-change primitive with its target replica set.  Each
/// action is consumed exactly once by the pipeline that owns it; the command
/// it describes is committed through the external consensus layer.
#[derive(Debug)]
pub enum Action {
    /// Create the target replicas on their assigned nodes.
    CreateReplicas(Vec<ReplicaDesc>),
    /// Add the target replicas to the group as non-voting learners.
    AddLearners(Vec<ReplicaDesc>),
    /// In one committed change, promote `incoming` to voter and demote or
    /// remove `demoting`.
    ReplaceVoters { incoming: Vec<ReplicaDesc>, demoting: Vec<ReplicaDesc> },
}

/// An ordered pipeline of actions and a cursor marking the next unexecuted
/// one.  The sequence is immutable once constructed; the pipeline advances
/// only when the pending action reports success, and any failure aborts the
/// remaining actions for good.
pub struct ActionTask {
    pub task_id: u64,
    pub actions: Vec<Action>,
    /// Index of the next unexecuted action.  Mutated only through
    /// `advance`.
    pub cursor: usize,
    pub failed: bool,
}

impl ActionTask {
    pub open spec fn spec_task_id(self) -> u64 {
        self.task_id
    }

    pub open spec fn spec_actions(self) -> Seq<Action> {
        self.actions@
    }

    /// Index of the next unexecuted action.
    pub open spec fn spec_cursor(self) -> int {
        self.cursor as int
    }

    pub open spec fn spec_failed(self) -> bool {
        self.failed
    }

    /// The pipeline is terminal once it failed or ran every action.
    pub open spec fn spec_terminal(self) -> bool {
        self.spec_failed() || self.spec_cursor() >= self.spec_actions().len()
    }

    /// The pipeline ran every action and none failed.
    pub open spec fn spec_succeeded(self) -> bool {
        !self.spec_failed() && self.spec_cursor() >= self.spec_actions().len()
    }

    /// The pipeline after the pending action reports `ok`: success moves the
    /// cursor one step, failure marks the pipeline failed; a terminal
    /// pipeline never moves again.
    pub open spec fn spec_advance(self, ok: bool) -> ActionTask {
        if self.spec_terminal() {
            self
        } else if ok {
            ActionTask { cursor: (self.cursor + 1) as usize, ..self }
        } else {
            ActionTask { failed: true, ..self }
        }
    }

    pub fn new(task_id: u64, actions: Vec<Action>) -> (r: Self)
        ensures
            r.spec_task_id() == task_id,
            r.spec_actions() == actions@,
            r.spec_cursor() == 0,
            !r.spec_failed(),
    {
        ActionTask { task_id, actions, cursor: 0, failed: false }
    }

    pub fn task_id(&self) -> (r: u64)
        ensures
            r == self.spec_task_id(),
    {
        self.task_id
    }

    pub fn is_terminal(&self) -> (r: bool)
        ensures
            r == self.spec_terminal(),
    {
        self.failed || self.cursor >= self.actions.len()
    }

    pub fn has_failed(&self) -> (r: bool)
        ensures
            r == self.spec_failed(),
    {
        self.failed
    }

    pub fn succeeded(&self) -> (r: bool)
        ensures
            r == self.spec_succeeded(),
    {
        !self.failed && self.cursor >= self.actions.len()
    }

    /// The pending action, or nothing once the pipeline is terminal.
    pub fn current(&self) -> (r: Option<&Action>)
        ensures
            self.spec_terminal() ==> r is None,
            !self.spec_terminal() ==> (r matches Some(a)
                && *a == self.spec_actions()[self.spec_cursor()]),
    {
        if self.failed {
            return None;
        }
        if self.cursor < self.actions.len() {
            Some(&self.actions[self.cursor])
        } else {
            None
        }
    }

    /// Records the outcome of the pending action: on success the next action
    /// (if any) becomes pending, on failure the pipeline aborts.
    pub fn advance(&mut self, ok: bool)
        requires
            !old(self).spec_terminal(),
        ensures
            *final(self) == old(self).spec_advance(ok),
            final(self).spec_actions() == old(self).spec_actions(),
            final(self).spec_task_id() == old(self).spec_task_id(),
            ok ==> final(self).spec_cursor() == old(self).spec_cursor() + 1
                && final(self).spec_failed() == old(self).spec_failed(),
            !ok ==> final(self).spec_failed()
                && final(self).spec_cursor() == old(self).spec_cursor(),
    {
        if ok {
            let n = self.actions.len();
            proof {
                assert(self.cursor < n);
            }
            self.cursor = self.cursor + 1;
        } else {
            self.failed = true;
        }
    }
}

/// The pipeline after a whole run of outcomes, applied in order.
pub open spec fn spec_run(t: ActionTask, outcomes: Seq<bool>) -> ActionTask
    decreases outcomes.len(),
{
    if outcomes.len() == 0 {
        t
    } else {
        spec_run(t.spec_advance(outcomes[0]), outcomes.drop_first())
    }
}

/// Pipeline ordering: an action begins only after the one before it reported
/// success.  Success moves the cursor to the next action and nothing else;
/// failure freezes the cursor and makes the pipeline terminal, so no further
/// action ever becomes pending.
pub proof fn lemma_pipeline_ordering(t: ActionTask, ok: bool)
    requires
        !t.spec_terminal(),
    ensures
        t.spec_advance(true).spec_cursor() == t.spec_cursor() + 1,
        !t.spec_advance(true).spec_failed(),
        t.spec_advance(false).spec_failed(),
        t.spec_advance(false).spec_terminal(),
        t.spec_advance(false).spec_cursor() == t.spec_cursor(),
        t.spec_advance(ok).spec_actions() == t.spec_actions(),
{
    broadcast use vstd::std_specs::vec::axiom_spec_len;

    assert(vstd::std_specs::vec::spec_vec_len(&t.actions) == t.actions@.len());
}

/// Length of the longest all-successful prefix of a run of outcomes.
pub open spec fn spec_successful_prefix(outcomes: Seq<bool>) -> nat
    decreases outcomes.len(),
{
    if outcomes.len() == 0 || !outcomes[0] {
        0
    } else {
        1 + spec_successful_prefix(outcomes.drop_first())
    }
}

/// Pipeline ordering over a whole run: the cursor advances exactly one
/// action per consecutive success, so the action at index `i` begins only
/// after the `i` actions before it all reported success, and the first
/// failure stops the run where it stands.
pub proof fn lemma_cursor_counts_successes(t: ActionTask, outcomes: Seq<bool>)
    requires
        !t.spec_failed(),
        t.spec_cursor() <= t.spec_actions().len(),
    ensures
        spec_run(t, outcomes).spec_cursor() == vstd::math::min(
            t.spec_cursor() + spec_successful_prefix(outcomes),
            t.spec_actions().len() as int,
        ),
    decreases outcomes.len(),
{
    broadcast use vstd::std_specs::vec::axiom_spec_len;

    assert(vstd::std_specs::vec::spec_vec_len(&t.actions) == t.actions@.len());
    if outcomes.len() == 0 {
        assert(spec_run(t, outcomes) == t);
    } else {
        let rest = outcomes.drop_first();
        let t1 = t.spec_advance(outcomes[0]);
        assert(spec_run(t, outcomes) == spec_run(t1, rest));
        if t.spec_terminal() {
            assert(t1 == t);
            lemma_cursor_counts_successes(t, rest);
        } else if outcomes[0] {
            assert(spec_successful_prefix(outcomes) == 1 + spec_successful_prefix(rest));
            lemma_cursor_counts_successes(t1, rest);
        } else {
            assert(spec_successful_prefix(outcomes) == 0);
            lemma_failure_aborts_pipeline(t1, rest);
            assert(spec_run(t1, rest) == t1);
        }
    }
}

/// Once a pipeline is terminal — in particular once one action failed — no
/// sequence of further outcomes changes it: the remaining actions never
/// execute.
pub proof fn lemma_failure_aborts_pipeline(t: ActionTask, outcomes: Seq<bool>)
    requires
        t.spec_terminal(),
    ensures
        spec_run(t, outcomes) == t,
    decreases outcomes.len(),
{
    if outcomes.len() > 0 {
        assert(t.spec_advance(outcomes[0]) == t);
        lemma_failure_aborts_pipeline(t, outcomes.drop_first());
    }
}

} // verus!
