//! Trial orchestration and decision detection for estimating, by repeated
//! replays of one starting scenario, how often an in-game opponent picks each
//! of its moves.
//!
//! The virtual machine is not part of this crate. A caller runs it, reports
//! what it observes (memory reads and writes, frame parity, a stop request)
//! and carries out what the functions here decide.

pub mod cache;
pub mod error;
pub mod hooks;
pub mod moves;
pub mod profile;
pub mod run;
pub mod simulator;
pub mod tally;
pub mod trial;
