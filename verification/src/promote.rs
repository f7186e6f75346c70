//! `PromoteGroup`: the control loop that grows a newly formed or
//! single-replica group to its target replication factor.
//!
//! Each poll cycle inspects the group's state and either defers (another
//! reconfiguration is in flight, the view is not initialized, or the target
//! factor is out of reach), terminates (the group is already promoted), or
//! asks the driver for replica allocations.  The driver performs that RPC
//! and hands the outcome to `complete`, which on success locks the replicas
//! and delegates the create → add-learner → replace-voter pipeline.

use vstd::prelude::*;

use crate::actions::{Action, ActionTask};
use crate::allocator::{AllocError, AllocReplicaRequest, AllocReplicaResponse};
use crate::context::{spec_same_identity, ScheduleContext};
use crate::descriptor::{clone_replicas, replica_ids, ReplicaDesc};
use crate::task::{ActionTaskWithLocks, TaskState};

verus! {

/// Stable id under which the driver registers this control loop; taken from
/// the top of the id space, clear of the ids the context mints for
/// delegated pipelines.
pub const PROMOTE_GROUP_TASK_ID: u64 = u64::MAX;

/// Replication factor the loop drives a group towards.
pub const DEFAULT_REQUIRED_REPLICAS: usize = 3;

/// Re-poll delay while another attempt is in flight or the view is not
/// ready, in milliseconds.
pub const BUSY_POLL_INTERVAL_MS: u64 = 1000;

/// Steady-state re-check delay once no further work is due this cycle, in
/// milliseconds.
pub const RECHECK_INTERVAL_MS: u64 = 10000;

/// What one poll cycle decided: either the cycle is over with the given
/// state, or the driver should request `request` from the allocation service
/// and hand the outcome to `complete`.
#[derive(Clone, Copy, Debug, PartialEq, Eq, Structural)]
pub enum PollStep {
    Finished(TaskState),
    Allocate { former_replica_id: u64, request: AllocReplicaRequest },
}

/// The control loop that promotes an under-replicated group.
pub struct PromoteGroup {
    required_replicas: usize,
}

/// The delegated task `t` is the promotion pipeline for `new_replicas`,
/// registered under `task_id` and not yet started: create the replicas, add
/// them as learners, then promote them to voter while demoting nobody.
pub open spec fn spec_promotion_pipeline(
    t: ActionTaskWithLocks,
    task_id: u64,
    new_replicas: Seq<ReplicaDesc>,
) -> bool {
    &&& t.spec_lock_owner() == Some(task_id)
    &&& t.spec_task().spec_task_id() == task_id
    &&& t.spec_task().spec_cursor() == 0
    &&& !t.spec_task().spec_failed()
    &&& t.spec_task().spec_actions().len() == 3
    &&& (t.spec_task().spec_actions()[0] matches Action::CreateReplicas(v) && v@ == new_replicas)
    &&& (t.spec_task().spec_actions()[1] matches Action::AddLearners(v) && v@ == new_replicas)
    &&& (t.spec_task().spec_actions()[2] matches Action::ReplaceVoters { incoming, demoting }
        && incoming@ == new_replicas && demoting@ == Seq::<ReplicaDesc>::empty())
}

/// What a successful `setup` did to the context: one task id was minted, the
/// former replica and every new one were locked under it at the observed
/// epoch, and the promotion pipeline was delegated.
pub open spec fn spec_setup_done(
    old_ctx: ScheduleContext,
    new_ctx: ScheduleContext,
    former_replica_id: u64,
    new_replicas: Seq<ReplicaDesc>,
) -> bool {
    &&& spec_same_identity(new_ctx, old_ctx)
    &&& new_ctx.next_task_id == old_ctx.next_task_id + 1
    &&& new_ctx.group_lock_table.spec_has_config_change()
    &&& new_ctx.group_lock_table.spec_owner() == Some(old_ctx.next_task_id)
    &&& new_ctx.group_lock_table.spec_locked_replicas()
        == seq![former_replica_id] + replica_ids(new_replicas)
    &&& new_ctx.group_lock_table.spec_epoch() == old_ctx.epoch
    &&& new_ctx.group_lock_table.spec_group_id() == old_ctx.group_lock_table.spec_group_id()
    &&& new_ctx.delegated@ == old_ctx.delegated@.push(new_ctx.delegated@.last())
    &&& spec_promotion_pipeline(new_ctx.delegated@.last(), old_ctx.next_task_id, new_replicas)
}

impl PromoteGroup {
    pub closed spec fn spec_required_replicas(self) -> int {
        self.required_replicas as int
    }

    /// The target factor is reachable: more than one replica is wanted and
    /// enough nodes are online to host them.
    pub open spec fn spec_feasible(self, num_online_nodes: usize) -> bool {
        1 < self.spec_required_replicas()
            && self.spec_required_replicas() <= num_online_nodes as int
    }

    pub fn new() -> (r: Self)
        ensures
            r.spec_required_replicas() == DEFAULT_REQUIRED_REPLICAS,
    {
        PromoteGroup { required_replicas: DEFAULT_REQUIRED_REPLICAS }
    }

    pub fn id(&self) -> (r: u64)
        ensures
            r == PROMOTE_GROUP_TASK_ID,
    {
        PROMOTE_GROUP_TASK_ID
    }

    /// Builds the allocation request for `num_required` new replicas, tagged
    /// with the group id, the observed epoch and the current term so the
    /// allocator can detect a stale caller.
    pub fn alloc_replica_request(&self, ctx: &ScheduleContext, num_required: u64) -> (r:
        AllocReplicaRequest)
        ensures
            r == (AllocReplicaRequest {
                group_id: ctx.group_id,
                epoch: ctx.epoch,
                current_term: ctx.current_term,
                leader_id: ctx.replica_id,
                num_required,
            }),
    {
        AllocReplicaRequest {
            group_id: ctx.group_id,
            epoch: ctx.epoch,
            current_term: ctx.current_term,
            leader_id: ctx.replica_id,
            num_required,
        }
    }

    /// Interprets the allocation outcome: the new replicas on success,
    /// nothing on any failure — transient errors and unexpected ones alike
    /// abort the cycle and leave the retry to the next poll.
    pub fn alloc_addition_replicas(
        &self,
        outcome: Result<AllocReplicaResponse, AllocError>,
    ) -> (r: Option<Vec<ReplicaDesc>>)
        ensures
            outcome matches Ok(resp) ==> (r matches Some(v) && v@ == resp.replicas@),
            outcome is Err ==> r is None,
    {
        match outcome {
            Ok(resp) => Some(resp.replicas),
            Err(_) => None,
        }
    }

    /// One poll cycle, up to the allocation request.  Defers while a config
    /// change is in flight, while the view is empty, or while the sole
    /// replica is locked; terminates once the group has more than one
    /// replica; asks for allocations only when the target factor is
    /// reachable.
    pub fn poll(
        &self,
        ctx: &ScheduleContext,
        replicas: &Vec<ReplicaDesc>,
        num_online_nodes: usize,
    ) -> (r: PollStep)
        ensures
            ctx.group_lock_table.spec_has_config_change() ==> r == PollStep::Finished(
                TaskState::Pending(Some(BUSY_POLL_INTERVAL_MS)),
            ),
            !ctx.group_lock_table.spec_has_config_change() && replicas@.len() > 1 ==> r
                == PollStep::Finished(TaskState::Terminated),
            !ctx.group_lock_table.spec_has_config_change() && replicas@.len() == 0 ==> r
                == PollStep::Finished(TaskState::Pending(Some(BUSY_POLL_INTERVAL_MS))),
            !ctx.group_lock_table.spec_has_config_change() && replicas@.len() == 1
                && ctx.group_lock_table.spec_is_replica_locked(replicas@[0].id) ==> r
                == PollStep::Finished(TaskState::Pending(Some(BUSY_POLL_INTERVAL_MS))),
            !ctx.group_lock_table.spec_has_config_change() && replicas@.len() == 1
                && !ctx.group_lock_table.spec_is_replica_locked(replicas@[0].id)
                && !self.spec_feasible(num_online_nodes) ==> r == PollStep::Finished(
                TaskState::Pending(Some(RECHECK_INTERVAL_MS)),
            ),
            !ctx.group_lock_table.spec_has_config_change() && replicas@.len() == 1
                && !ctx.group_lock_table.spec_is_replica_locked(replicas@[0].id)
                && self.spec_feasible(num_online_nodes) ==> r == (PollStep::Allocate {
                former_replica_id: replicas@[0].id,
                request: AllocReplicaRequest {
                    group_id: ctx.group_id,
                    epoch: ctx.epoch,
                    current_term: ctx.current_term,
                    leader_id: ctx.replica_id,
                    num_required: (self.spec_required_replicas() - 1) as u64,
                },
            }),
    {
        if ctx.group_lock_table.has_config_change() {
            return PollStep::Finished(TaskState::Pending(Some(BUSY_POLL_INTERVAL_MS)));
        }

        if replicas.len() > 1 {
            return PollStep::Finished(TaskState::Terminated);
        } else if replicas.len() == 0 {
            return PollStep::Finished(TaskState::Pending(Some(BUSY_POLL_INTERVAL_MS)));
        }

        let former_replica_id = replicas[0].id;
        if ctx.group_lock_table.is_replica_locked(former_replica_id) {
            return PollStep::Finished(TaskState::Pending(Some(BUSY_POLL_INTERVAL_MS)));
        }

        if 1 < self.required_replicas && self.required_replicas <= num_online_nodes {
            let num_acquire = self.required_replicas - 1;
            let request = self.alloc_replica_request(ctx, num_acquire as u64);
            PollStep::Allocate { former_replica_id, request }
        } else {
            PollStep::Finished(TaskState::Pending(Some(RECHECK_INTERVAL_MS)))
        }
    }

    /// Finishes the cycle a `PollStep::Allocate` began, given the outcome of
    /// the allocation RPC.  On any allocation failure it leaves the context
    /// untouched and reports so; on success it locks the former replica and
    /// every new one under a fresh task id, builds the promotion pipeline
    /// and delegates it.
    pub fn setup(
        &self,
        ctx: &mut ScheduleContext,
        former_replica_id: u64,
        outcome: Result<AllocReplicaResponse, AllocError>,
    ) -> (r: bool)
        requires
            old(ctx).group_lock_table.spec_admits(old(ctx).epoch),
            old(ctx).next_task_id < u64::MAX,
        ensures
            r == (outcome is Ok),
            outcome is Err ==> *final(ctx) == *old(ctx),
            outcome matches Ok(resp) ==> spec_setup_done(
                *old(ctx),
                *final(ctx),
                former_replica_id,
                resp.replicas@,
            ),
    {
        let replicas = match self.alloc_addition_replicas(outcome) {
            Some(replicas) => replicas,
            None => {
                return false;
            },
        };

        let mut locked_replicas: Vec<u64> = Vec::new();
        locked_replicas.push(former_replica_id);
        let n = replicas.len();
        let mut i: usize = 0;
        while i < n
            invariant
                i <= n,
                n == replicas@.len(),
                locked_replicas@ == seq![former_replica_id] + replica_ids(replicas@.take(i as int)),
            decreases n - i,
        {
            locked_replicas.push(replicas[i].id);
            proof {
                assert(locked_replicas@ =~= seq![former_replica_id] + replica_ids(
                    replicas@.take(i as int + 1),
                ));
            }
            i = i + 1;
        }
        proof {
            assert(replicas@.take(n as int) =~= replicas@);
        }

        let new_task_id = ctx.next_task_id();
        let epoch = ctx.epoch;
        let locks = match ctx.group_lock_table.config_change(
            new_task_id,
            epoch,
            locked_replicas,
            clone_replicas(&replicas),
            Vec::new(),
        ) {
            Ok(locks) => locks,
            Err(_) => {
                proof {
                    assert(false);
                }
                return false;
            },
        };

        let create_replicas = Action::CreateReplicas(clone_replicas(&replicas));
        let add_learners = Action::AddLearners(clone_replicas(&replicas));
        let replace_voters = Action::ReplaceVoters { incoming: replicas, demoting: Vec::new() };
        let mut steps: Vec<Action> = Vec::new();
        steps.push(create_replicas);
        steps.push(add_learners);
        steps.push(replace_voters);
        let promoting_task = ActionTask::new(new_task_id, steps);
        ctx.delegate(ActionTaskWithLocks::new(locks, promoting_task));
        proof {
            assert(final(ctx).delegated@.drop_last() =~= old(ctx).delegated@);
            assert(final(ctx).delegated@ =~= old(ctx).delegated@.push(
                final(ctx).delegated@.last(),
            ));
        }
        true
    }

    /// The tail of a poll cycle that asked for allocations: record the
    /// outcome through `setup`, then re-check at the steady-state cadence
    /// whatever happened — allocation conflicts are expected steady-state
    /// conditions, never a reason to terminate the loop.
    pub fn complete(
        &self,
        ctx: &mut ScheduleContext,
        former_replica_id: u64,
        outcome: Result<AllocReplicaResponse, AllocError>,
    ) -> (r: TaskState)
        requires
            old(ctx).group_lock_table.spec_admits(old(ctx).epoch),
            old(ctx).next_task_id < u64::MAX,
        ensures
            r == TaskState::Pending(Some(RECHECK_INTERVAL_MS)),
            outcome is Err ==> *final(ctx) == *old(ctx),
            outcome matches Ok(resp) ==> spec_setup_done(
                *old(ctx),
                *final(ctx),
                former_replica_id,
                resp.replicas@,
            ),
    {
        let _delegated = self.setup(ctx, former_replica_id, outcome);
        TaskState::Pending(Some(RECHECK_INTERVAL_MS))
    }
}

} // verus!
