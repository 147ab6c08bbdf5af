//! Verified core of a small job-runner service.
//!
//! The library holds the decision logic of the service: job identifiers,
//! the process registry and its state machine, the run / stop / status / log
//! request handling, the control-group plan derived from a run request, and
//! the log-tail protocol whose end-of-stream condition is derived from the
//! registry rather than from end-of-file alone.  Everything effectful
//! (spawning, signalling, file reads, timers) lives outside the library and
//! is driven by the decisions made here.

pub mod cgroups;
pub mod ids;
pub mod log_stream;
pub mod process_map;
pub mod runner;
pub mod service;
