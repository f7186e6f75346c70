//! Group reconfiguration scheduler for a replicated storage system.
//!
//! The crate models the control loop that grows, shrinks and rebalances the
//! replica set backing a consensus group while the group keeps serving
//! traffic.  A per-group lock table keeps concurrent reconfiguration attempts
//! from racing on the same replicas, membership changes run as ordered action
//! pipelines, and control-loop tasks such as `PromoteGroup` originate those
//! pipelines when a group is under-replicated.
//!
//! All I/O (the allocation RPC, the consensus commit of each action) happens
//! outside this crate: a driver performs it and hands the outcome back as a
//! plain value, so every scheduling decision in here is verified.

pub mod actions;
pub mod allocator;
pub mod context;
pub mod descriptor;
pub mod eval;
pub mod lock_table;
pub mod promote;
pub mod server;
pub mod task;
