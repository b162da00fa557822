//! Workload driver and consistency-aware command executor for a replicated
//! key-value service.
//!
//! The driver side (`workload`, `client`) decides what to send and when the
//! run is over; the service side (`executor`) decides how an operation is
//! executed under each consistency level. Timers, transport and the backing
//! store are driven by the caller, which hands the outcomes back as values.

pub mod client;
pub mod executor;
pub mod kv;
pub mod workload;
