//! Container resource metrics core: turns cumulative container-runtime
//! counters into clamped deltas, keeps a registry of per-container workers in
//! step with a polled container list, and formats structured log lines.
//!
//! All I/O (the container runtime connection, the metrics exporter, the clock
//! and stdout) lives outside this crate; the modules here hold the decision
//! and computation logic, each function with a verified contract.

pub mod blkio;
pub mod config;
pub mod delta;
pub mod identity;
pub mod labels;
pub mod metrics;
pub mod reconcile;
pub mod s_log;
pub mod sample;
pub mod strutil;
pub mod worker;
