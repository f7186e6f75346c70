//! Per-group scheduler server: owns the scheduling context, the promotion
//! control loop, and the one pipeline task it may have in flight, and keeps
//! the invariant that ties the pipeline to the lock table.

use vstd::prelude::*;

use crate::actions::Action;
use crate::allocator::{AllocError, AllocReplicaResponse};
use crate::context::{spec_same_identity, ScheduleContext};
use crate::descriptor::{replica_ids, ReplicaDesc};
use crate::promote::{spec_promotion_pipeline, PollStep, PromoteGroup, RECHECK_INTERVAL_MS};
use crate::task::{ActionTaskWithLocks, TaskState};

verus! {

/// Driver-facing state of one group's scheduler.  `poll_promote` runs the
/// control loop's decision, `complete_promote` records an allocation
/// outcome, and `step_pipeline` records each action outcome of the pipeline
/// in flight, releasing its locks on the terminal one.
pub struct Server {
    pub ctx: ScheduleContext,
    pub promote: PromoteGroup,
    /// The delegated pipeline currently in flight, if any.  The driver
    /// steps it through `step_pipeline` and never replaces it directly.
    pub pipeline: Option<ActionTaskWithLocks>,
}

impl Server {
    pub open spec fn spec_pipeline(self) -> Option<ActionTaskWithLocks> {
        self.pipeline
    }

    /// The server's invariant: a pipeline in flight is not terminal and owns
    /// the lock table's active entry; with no pipeline in flight, no entry
    /// is active and no delegated task is waiting.
    pub open spec fn wf(self) -> bool {
        &&& (self.spec_pipeline() matches Some(p) ==> !p.spec_task().spec_terminal()
            && p.spec_lock_owner() is Some
            && self.ctx.group_lock_table.spec_owner() == p.spec_lock_owner())
        &&& (self.spec_pipeline() is None
            ==> !self.ctx.group_lock_table.spec_has_config_change())
        &&& self.ctx.delegated@ == Seq::<ActionTaskWithLocks>::empty()
    }

    pub fn new(group_id: u64, replica_id: u64, current_term: u64, epoch: u64) -> (r: Self)
        ensures
            r.wf(),
            r.spec_pipeline() is None,
            r.ctx.group_id == group_id,
            r.ctx.replica_id == replica_id,
            r.ctx.current_term == current_term,
            r.ctx.epoch == epoch,
            r.ctx.next_task_id == 1,
            r.ctx.group_lock_table.spec_epoch() == 0,
            !r.ctx.group_lock_table.spec_has_config_change(),
            forall|id: u64| !r.ctx.group_lock_table.spec_is_replica_locked(id),
            r.promote.spec_required_replicas() == crate::promote::DEFAULT_REQUIRED_REPLICAS,
    {
        Server {
            ctx: ScheduleContext::new(group_id, replica_id, current_term, epoch),
            promote: PromoteGroup::new(),
            pipeline: None,
        }
    }

    /// Runs one decision cycle of the promotion loop against the given view
    /// of the group's replicas and the number of online nodes.
    pub fn poll_promote(
        &self,
        replicas: &Vec<ReplicaDesc>,
        num_online_nodes: usize,
    ) -> (r: PollStep)
        ensures
            self.ctx.group_lock_table.spec_has_config_change() ==> r == PollStep::Finished(
                TaskState::Pending(Some(crate::promote::BUSY_POLL_INTERVAL_MS)),
            ),
            !self.ctx.group_lock_table.spec_has_config_change() && replicas@.len() > 1 ==> r
                == PollStep::Finished(TaskState::Terminated),
            !self.ctx.group_lock_table.spec_has_config_change() && replicas@.len() == 0 ==> r
                == PollStep::Finished(TaskState::Pending(Some(
                crate::promote::BUSY_POLL_INTERVAL_MS,
            ))),
            !self.ctx.group_lock_table.spec_has_config_change() && replicas@.len() == 1
                && self.ctx.group_lock_table.spec_is_replica_locked(replicas@[0].id) ==> r
                == PollStep::Finished(TaskState::Pending(Some(
                crate::promote::BUSY_POLL_INTERVAL_MS,
            ))),
            !self.ctx.group_lock_table.spec_has_config_change() && replicas@.len() == 1
                && !self.ctx.group_lock_table.spec_is_replica_locked(replicas@[0].id)
                && !self.promote.spec_feasible(num_online_nodes) ==> r == PollStep::Finished(
                TaskState::Pending(Some(RECHECK_INTERVAL_MS)),
            ),
            !self.ctx.group_lock_table.spec_has_config_change() && replicas@.len() == 1
                && !self.ctx.group_lock_table.spec_is_replica_locked(replicas@[0].id)
                && self.promote.spec_feasible(num_online_nodes) ==> (r matches PollStep::Allocate {
                former_replica_id,
                request,
            } && former_replica_id == replicas@[0].id && request.group_id == self.ctx.group_id
                && request.epoch == self.ctx.epoch && request.current_term
                == self.ctx.current_term && request.leader_id == self.ctx.replica_id
                && request.num_required == self.promote.spec_required_replicas() - 1),
    {
        self.promote.poll(&self.ctx, replicas, num_online_nodes)
    }

    /// Records the outcome of the allocation RPC a `PollStep::Allocate`
    /// asked for.  On failure nothing changes but the poll cadence; on
    /// success the promotion pipeline is now in flight and its replicas are
    /// locked.
    pub fn complete_promote(
        &mut self,
        former_replica_id: u64,
        outcome: Result<AllocReplicaResponse, AllocError>,
    ) -> (r: TaskState)
        requires
            old(self).wf(),
            old(self).spec_pipeline() is None,
            old(self).ctx.epoch >= old(self).ctx.group_lock_table.spec_epoch(),
            old(self).ctx.next_task_id < u64::MAX,
        ensures
            final(self).wf(),
            r == TaskState::Pending(Some(RECHECK_INTERVAL_MS)),
            spec_same_identity(final(self).ctx, old(self).ctx),
            outcome is Err ==> final(self).spec_pipeline() is None
                && final(self).ctx.group_lock_table == old(self).ctx.group_lock_table
                && final(self).ctx.next_task_id == old(self).ctx.next_task_id
                && !final(self).ctx.group_lock_table.spec_has_config_change(),
            outcome matches Ok(resp) ==> (final(self).spec_pipeline() matches Some(p)
                && spec_promotion_pipeline(p, old(self).ctx.next_task_id, resp.replicas@)
                && final(self).ctx.group_lock_table.spec_locked_replicas()
                    == seq![former_replica_id] + replica_ids(resp.replicas@)
                && final(self).ctx.group_lock_table.spec_epoch() == old(self).ctx.epoch
                && final(self).ctx.next_task_id == old(self).ctx.next_task_id + 1),
    {
        let state = self.promote.complete(&mut self.ctx, former_replica_id, outcome);
        let delegated = self.ctx.pop_delegated();
        match delegated {
            Some(t) => {
                self.pipeline = Some(t);
            },
            None => {},
        }
        proof {
            assert(self.ctx.delegated@ =~= Seq::<ActionTaskWithLocks>::empty());
        }
        state
    }

    /// The pending action of the pipeline in flight, for the driver to
    /// execute next.
    pub fn current_action(&self) -> (r: Option<&Action>)
        requires
            self.wf(),
        ensures
            self.spec_pipeline() is None ==> r is None,
            self.spec_pipeline() matches Some(p) ==> (r matches Some(a)
                && *a == p.spec_task().spec_actions()[p.spec_task().spec_cursor()]),
    {
        match &self.pipeline {
            Some(p) => p.current(),
            None => None,
        }
    }

    pub fn has_pipeline(&self) -> (r: bool)
        ensures
            r == (self.spec_pipeline() is Some),
    {
        self.pipeline.is_some()
    }

    /// Records the outcome of the pipeline's pending action.  On the
    /// terminal outcome — the last action succeeded, or any action failed —
    /// the pipeline's locks are released and the task is discarded.
    pub fn step_pipeline(&mut self, ok: bool) -> (r: TaskState)
        requires
            old(self).wf(),
            old(self).spec_pipeline() is Some,
        ensures
            final(self).wf(),
            spec_same_identity(final(self).ctx, old(self).ctx),
            final(self).ctx.next_task_id == old(self).ctx.next_task_id,
            final(self).ctx.group_lock_table.spec_epoch()
                == old(self).ctx.group_lock_table.spec_epoch(),
            old(self).spec_pipeline() matches Some(p) ==> ({
                &&& ((r == TaskState::Terminated)
                    <==> p.spec_task().spec_advance(ok).spec_terminal())
                &&& (r == TaskState::Terminated ==> final(self).spec_pipeline() is None
                    && !final(self).ctx.group_lock_table.spec_has_config_change())
                &&& (r != TaskState::Terminated ==> r == TaskState::Pending(None)
                    && (final(self).spec_pipeline() matches Some(q)
                        && q.spec_task() == p.spec_task().spec_advance(ok)
                        && q.spec_lock_owner() == p.spec_lock_owner())
                    && final(self).ctx.group_lock_table == old(self).ctx.group_lock_table)
            }),
    {
        let state = match &mut self.pipeline {
            Some(p) => p.step(&mut self.ctx.group_lock_table, ok),
            None => {
                proof {
                    assert(false);
                }
                TaskState::Terminated
            },
        };
        if state == TaskState::Terminated {
            self.pipeline = None;
        }
        state
    }
}

} // verus!
