use group_schedule::allocator::{AllocError, AllocReplicaRequest, AllocReplicaResponse};
use group_schedule::actions::Action;
use group_schedule::descriptor::{ReplicaDesc, ReplicaRole};
use group_schedule::promote::{
    PollStep, PromoteGroup, BUSY_POLL_INTERVAL_MS, PROMOTE_GROUP_TASK_ID, RECHECK_INTERVAL_MS,
};
use group_schedule::server::Server;
use group_schedule::task::TaskState;

fn voter(id: u64, node_id: u64) -> ReplicaDesc {
    ReplicaDesc { id, node_id, role: ReplicaRole::Voter }
}

fn ids(replicas: &[ReplicaDesc]) -> Vec<u64> {
    replicas.iter().map(|r| r.id).collect()
}

#[test]
fn poll_intervals_are_one_and_ten_seconds() {
    assert_eq!(BUSY_POLL_INTERVAL_MS, 1000);
    assert_eq!(RECHECK_INTERVAL_MS, 10000);
}

#[test]
fn task_has_its_stable_id() {
    let task = PromoteGroup::new();
    assert_eq!(task.id(), PROMOTE_GROUP_TASK_ID);
}

#[test]
fn promoted_group_terminates() {
    // A group that already has more than one replica is already promoted:
    // every poll terminates the loop and never asks for an allocation.
    let server = Server::new(1, 7, 5, 3);
    let view = vec![voter(7, 1), voter(8, 2), voter(9, 3)];
    assert_eq!(
        server.poll_promote(&view, 5),
        PollStep::Finished(TaskState::Terminated)
    );
    let two = vec![voter(7, 1), voter(8, 2)];
    assert_eq!(
        server.poll_promote(&two, 0),
        PollStep::Finished(TaskState::Terminated)
    );
}

#[test]
fn empty_view_defers() {
    let server = Server::new(1, 7, 5, 3);
    let view: Vec<ReplicaDesc> = vec![];
    assert_eq!(
        server.poll_promote(&view, 5),
        PollStep::Finished(TaskState::Pending(Some(BUSY_POLL_INTERVAL_MS)))
    );
}

#[test]
fn backoff_while_config_change_in_flight() {
    // With an entry in the lock table, every poll backs off without
    // attempting an allocation.
    let mut server = Server::new(1, 7, 5, 3);
    let view = vec![voter(7, 1)];
    match server.poll_promote(&view, 5) {
        PollStep::Allocate { former_replica_id, .. } => {
            let resp = AllocReplicaResponse { replicas: vec![voter(8, 2), voter(9, 3)] };
            server.complete_promote(former_replica_id, Ok(resp));
        }
        other => panic!("expected an allocation request, got {other:?}"),
    }
    assert!(server.ctx.group_lock_table.has_config_change());
    for _ in 0..3 {
        assert_eq!(
            server.poll_promote(&view, 5),
            PollStep::Finished(TaskState::Pending(Some(BUSY_POLL_INTERVAL_MS)))
        );
    }
}

#[test]
fn backoff_while_sole_replica_locked() {
    let mut server = Server::new(1, 7, 5, 3);
    // Another task registered a change that locks the sole replica: the
    // loop defers, and resumes once that task released its entry.
    let guard = server
        .ctx
        .group_lock_table
        .config_change(99, 3, vec![7], vec![], vec![])
        .expect("fresh table admits the change");
    let view = vec![voter(7, 1)];
    let task = PromoteGroup::new();
    assert_eq!(
        task.poll(&server.ctx, &view, 5),
        PollStep::Finished(TaskState::Pending(Some(BUSY_POLL_INTERVAL_MS)))
    );
    server.ctx.group_lock_table.release(&guard);
    assert!(matches!(
        task.poll(&server.ctx, &view, 5),
        PollStep::Allocate { .. }
    ));
}

#[test]
fn unreachable_target_skips_the_cycle() {
    // Only the node hosting the sole replica is online: the target factor
    // is out of reach, so the loop takes no action and re-checks at the
    // steady-state cadence.
    let server = Server::new(1, 7, 5, 3);
    let view = vec![voter(7, 1)];
    assert_eq!(
        server.poll_promote(&view, 1),
        PollStep::Finished(TaskState::Pending(Some(RECHECK_INTERVAL_MS)))
    );
    assert_eq!(
        server.poll_promote(&view, 2),
        PollStep::Finished(TaskState::Pending(Some(RECHECK_INTERVAL_MS)))
    );
    assert!(!server.ctx.group_lock_table.has_config_change());
}

#[test]
fn transient_errors_back_off_without_locking() {
    for err in [AllocError::ResourceExhausted, AllocError::EpochNotMatch] {
        let mut server = Server::new(1, 7, 5, 3);
        assert!(err.is_transient());
        let state = server.complete_promote(7, Err(err));
        assert_eq!(state, TaskState::Pending(Some(RECHECK_INTERVAL_MS)));
        assert!(!server.ctx.group_lock_table.has_config_change());
        assert!(!server.has_pipeline());
    }
}

#[test]
fn unexpected_error_backs_off_without_locking() {
    let mut server = Server::new(1, 7, 5, 3);
    assert!(!AllocError::Unexpected.is_transient());
    let state = server.complete_promote(7, Err(AllocError::Unexpected));
    assert_eq!(state, TaskState::Pending(Some(RECHECK_INTERVAL_MS)));
    assert!(!server.ctx.group_lock_table.has_config_change());
    assert!(!server.has_pipeline());
}

#[test]
fn promotion_scenario_runs_to_completion() {
    // Group 1 has one replica (id 7), the target factor is 3 and five nodes
    // are online; the allocator grants replicas 8 and 9.
    let mut server = Server::new(1, 7, 5, 3);
    let view = vec![voter(7, 1)];

    let (former, request) = match server.poll_promote(&view, 5) {
        PollStep::Allocate { former_replica_id, request } => (former_replica_id, request),
        other => panic!("expected an allocation request, got {other:?}"),
    };
    assert_eq!(former, 7);
    assert_eq!(
        request,
        AllocReplicaRequest { group_id: 1, epoch: 3, current_term: 5, leader_id: 7, num_required: 2 }
    );

    let resp = AllocReplicaResponse { replicas: vec![voter(8, 2), voter(9, 3)] };
    let state = server.complete_promote(former, Ok(resp));
    assert_eq!(state, TaskState::Pending(Some(RECHECK_INTERVAL_MS)));

    // The lock entry covers the former replica and both new ones.
    for id in [7, 8, 9] {
        assert!(server.ctx.group_lock_table.is_replica_locked(id));
    }
    assert!(!server.ctx.group_lock_table.is_replica_locked(10));

    // The pipeline runs create -> add-learner -> replace-voter, in order.
    match server.current_action() {
        Some(Action::CreateReplicas(v)) => assert_eq!(ids(v), vec![8, 9]),
        _ => panic!("the first pending action must create the replicas"),
    }
    assert_eq!(server.step_pipeline(true), TaskState::Pending(None));
    match server.current_action() {
        Some(Action::AddLearners(v)) => assert_eq!(ids(v), vec![8, 9]),
        _ => panic!("the second pending action must add the learners"),
    }
    assert_eq!(server.step_pipeline(true), TaskState::Pending(None));
    match server.current_action() {
        Some(Action::ReplaceVoters { incoming, demoting }) => {
            assert_eq!(ids(incoming), vec![8, 9]);
            assert!(demoting.is_empty());
        }
        _ => panic!("the third pending action must replace the voters"),
    }
    assert_eq!(server.step_pipeline(true), TaskState::Terminated);

    // On full success the locks are gone, and once the group reports its
    // three replicas the loop terminates.
    assert!(!server.ctx.group_lock_table.has_config_change());
    for id in [7, 8, 9] {
        assert!(!server.ctx.group_lock_table.is_replica_locked(id));
    }
    let promoted = vec![voter(7, 1), voter(8, 2), voter(9, 3)];
    assert_eq!(
        server.poll_promote(&promoted, 5),
        PollStep::Finished(TaskState::Terminated)
    );
}

#[test]
fn failed_pipeline_releases_locks_and_retries() {
    let mut server = Server::new(1, 7, 5, 3);
    let view = vec![voter(7, 1)];
    let former = match server.poll_promote(&view, 5) {
        PollStep::Allocate { former_replica_id, .. } => former_replica_id,
        other => panic!("expected an allocation request, got {other:?}"),
    };
    let resp = AllocReplicaResponse { replicas: vec![voter(8, 2), voter(9, 3)] };
    server.complete_promote(former, Ok(resp));

    // The create step fails: the pipeline aborts and the locks are freed,
    // so the next poll can start a fresh attempt.
    assert_eq!(server.step_pipeline(false), TaskState::Terminated);
    assert!(!server.ctx.group_lock_table.has_config_change());
    assert!(!server.ctx.group_lock_table.is_replica_locked(7));
    assert!(matches!(
        server.poll_promote(&view, 5),
        PollStep::Allocate { .. }
    ));
}
