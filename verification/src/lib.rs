//! Orchestration of HTTP server and proxy benchmarks.
//!
//! The library decides *what* a benchmark batch does and in which order:
//! which command starts a server, how it is stopped, which artifacts a run
//! leaves behind and where. Performing those steps (starting processes,
//! sleeping, writing files) is left to the caller, who reports each outcome
//! back to the sequencer.
pub mod artifact;
pub mod batch;
pub mod collector;
pub mod command;
pub mod failure;
pub mod guarantees;
pub mod hello;
pub mod path;
pub mod plan;
pub mod run;
pub mod sequencer;
pub mod server;
