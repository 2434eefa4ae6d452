//! A poll-driven bridge over blocking standard-stream I/O, together with the
//! deadline combinator that bounds how long a suspendable operation may run.
//!
//! The heart of the crate is the [`bridge`] module: a state machine that turns
//! the blocking write/flush/read/read-line calls of a standard stream into
//! operations that never block the polling caller.  Each poll either consumes
//! the result recorded by a previously dispatched blocking call, asks the
//! caller to hand a prepared [`bridge::Inner`] bundle to a worker, or reports
//! that the in-flight call has not finished yet.  The [`stdio`] module exposes
//! one such bridge per standard stream, and [`deadline`] holds the combinator
//! that races an operation against a timer.

pub mod bridge;
pub mod deadline;
pub mod dir_entry;
pub mod errors;
pub mod stdio;
pub mod task;
