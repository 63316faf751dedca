//! A supervisor for one shell command, driven over a small HTTP control plane.
//!
//! The library holds the decisions: the configuration, the supervisor's state
//! machine for start, stop and status, the mapping of outcomes to HTTP status
//! codes, and the two-signal shutdown policy. Spawning, killing, running shell
//! snippets, serving HTTP and listening for signals are left to the caller,
//! which performs each action the state machine asks for and reports back.
pub mod config;
pub mod control;
pub mod executor;
pub mod laws;
pub mod shutdown;
pub mod supervisor;
