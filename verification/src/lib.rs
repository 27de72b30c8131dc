//! Latency measurement and aggregation for remote cryptographic services.
//!
//! The server side turns a timed operation into a run of microsecond samples
//! and reduces the run to descriptive statistics. The client side drives a
//! batch of measurement calls under a concurrency limit and merges the
//! per-call statistics into one summary. All arithmetic is exact: averages
//! and throughputs are kept as fractions of integers.

pub mod aggregate;
pub mod clock;
pub mod health;
pub mod identity;
pub mod kem;
pub mod orchestrator;
pub mod ratio;
pub mod response;
pub mod sampler;
pub mod series;
pub mod stats;
pub mod suite;
pub mod text;
pub mod zk;
