//! A verified core for a code-grading harness.
//!
//! A grading session drives one sandboxed candidate program through an
//! ordered recipe of test cases, feeding scripted stdin, collecting the
//! demultiplexed stdout/stderr streams, and comparing them byte for byte
//! against the declared expectations.  This crate holds the parts with
//! real ordering and state-transition concerns: entrypoint resolution,
//! the container lifecycle state machine, the stream demultiplexer, the
//! per-case grading rules, and the final summary.  All process, file and
//! container I/O lives outside, in the thin binary that calls in here.

pub mod compare;
pub mod engine;
pub mod lifecycle;
pub mod mux;
pub mod recipe;
pub mod report;
pub mod resolve;
