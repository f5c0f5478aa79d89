//! Robust external-process invocation core: locating a usable interpreter,
//! modelling a finished process's captured output, choosing an error message
//! deterministically, trying candidate interpreters in order until one
//! succeeds, and normalizing the outcome for each task a caller can ask for.
//!
//! Everything here is plain decision logic over captured values; the actual
//! spawning of processes and the user-interface plumbing live outside this
//! crate and hand their observations in as data.

pub mod facade;
pub mod orchestrator;
pub mod process;
pub mod text;
