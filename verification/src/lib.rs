//! Reconciliation core for a topic operator: it watches a managed
//! application object and drives an externally hosted messaging topic
//! toward the desired state, recording convergence as status conditions.
//!
//! The modules hold the verified control logic: condition bookkeeping,
//! deterministic resource naming, the idempotent upsert plan, the
//! construct/deconstruct pipeline, and the deduplicating work queue.
//! All network calls (registry, cluster API) are performed by the
//! surrounding program, which feeds their results back in as plain values.
pub mod conditions;
pub mod endpoint;
pub mod model;
pub mod naming;
pub mod queue;
pub mod reconcile;
pub mod topic;
