//! Verified core of a configuration-driven backup orchestrator.
//!
//! Each configured job wraps one invocation of an external backup tool in a
//! lifecycle of shell hooks (`before` / `after` / `success` / `failure`),
//! classifies the tool's structured output, and decides which hook groups to
//! run in response. The decision logic lives here and is verified; process
//! spawning, file reading and telemetry stay in the surrounding binary.

pub mod config;
pub mod json;
pub mod lines;
pub mod outcome;
pub mod runner;
pub mod time;
pub mod trace;
