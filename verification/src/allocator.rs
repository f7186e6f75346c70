//! Interface values of the cluster-metadata allocation service.  The RPC
//! itself is performed by the driver; this crate only builds the request and
//! interprets the outcome it is handed back.

use vstd::prelude::*;

use crate::descriptor::ReplicaDesc;

verus! {

/// Request for new replica allocations, tagged with the caller's identity
/// and view so the allocator can detect staleness.
#[derive(Clone, Copy, Debug, PartialEq, Eq, Structural)]
pub struct AllocReplicaRequest {
    pub group_id: u64,
    pub epoch: u64,
    pub current_term: u64,
    pub leader_id: u64,
    pub num_required: u64,
}

/// Successful answer of the allocation service.
pub struct AllocReplicaResponse {
    pub replicas: Vec<ReplicaDesc>,
}

/// Failure classes of the allocation service.  Resource exhaustion and epoch
/// staleness are expected steady-state conditions; everything else is
/// unexpected but still handled by deferral, never by task termination.
#[derive(Clone, Copy, Debug, PartialEq, Eq, Structural)]
pub enum AllocError {
    ResourceExhausted,
    EpochNotMatch,
    Unexpected,
}

impl AllocError {
    /// Transient errors are retried quietly at the poll cadence; the rest
    /// are logged loudly by the driver but retried all the same.
    pub open spec fn spec_is_transient(self) -> bool {
        self is ResourceExhausted || self is EpochNotMatch
    }

    pub fn is_transient(&self) -> (r: bool)
        ensures
            r == self.spec_is_transient(),
    {
        match self {
            AllocError::ResourceExhausted => true,
            AllocError::EpochNotMatch => true,
            AllocError::Unexpected => false,
        }
    }
}

} // verus!
