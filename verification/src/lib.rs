//! A liveness heartbeat: the rules by which a process tells a monitoring
//! endpoint, at a fixed interval, that it is alive.
//!
//! The crate decides and formats; it performs no I/O. A driver asks the
//! [`schedule::Heartbeat`] what to do next, does it (an HTTP GET or a sleep),
//! and reports back what happened.

pub mod cadence;
pub mod endpoint;
pub mod outcome;
pub mod schedule;
