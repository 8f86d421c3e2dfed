//! Planning and bookkeeping for a contract test run against a sandboxed
//! network: what to do next, how to judge each call, and what to report.
//!
//! The crate performs no I/O. A driver provisions the sandbox, reads the
//! artifact, deploys it and issues the calls; after each of these it hands
//! the result to [`runner::Runner::step`] and carries out the action that
//! comes back.

pub mod amount;
pub mod call;
pub mod outcome;
pub mod report;
pub mod runner;
pub mod trace;
