//! A small library of tool handlers for an agent-facing server: a
//! concurrency-friendly registry of labelled monotonic instants with
//! elapsed-time reporting, duration and date-time rendering, a closed error
//! taxonomy, and the decision logic behind the command, file and directory
//! tools. The registry takes its clock readings as arguments, so time is
//! injectable.

pub mod cmd;
pub mod dirs;
pub mod errors;
pub mod idgen;
pub mod laws;
pub mod registry;
pub mod timefmt;
pub mod wallclock;
