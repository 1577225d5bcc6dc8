//! Core logic of a "rerun on change or exit" process supervisor.
//!
//! The supervisor runs a command, restarts it whenever a watched set of
//! filesystem paths changes, and restarts it when it exits, until the
//! user interrupts it.  This crate holds the verified decision logic:
//! how the command line splits into a `(deps, cmd, args)` triple, how a
//! single run moves through its phases in reaction to the interrupt
//! gate, the per-run change flag and the child's exit polls, which
//! decoded output lines are forwarded, and the exact text of every log
//! line.  The surrounding binary performs the OS work (spawning,
//! signalling, watching, threads) and consults this crate for every
//! decision.

pub mod invocation;
pub mod machine;
pub mod relay;
pub mod textfmt;
