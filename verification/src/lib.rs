//! Core of a Kubernetes admission policy server.
//!
//! Incoming admission reviews are evaluated by sandboxed policy modules; this
//! crate holds the verified heart of that pipeline: the policy set and its
//! modes, the post-processing of raw evaluation outcomes (monitor-mode
//! downgrade, mutation gating), boolean composition of policy groups, the
//! round-robin dispatcher of the worker pool, the cluster-context poller's
//! state machine, the bootstrap sequencer, and the request/reply bookkeeping
//! of the evaluation channel.

pub mod bootstrap;
pub mod communication;
pub mod group;
pub mod kube_poller;
pub mod metrics;
pub mod policy;
pub mod response;
pub mod worker;
pub mod worker_pool;
