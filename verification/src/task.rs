//! Task identifiers.
//!
//! Identifiers come from a process-wide counter owned by the unverified
//! runtime shell; this module holds the identifier type itself and the rule
//! that bounds how far the counter may run before the process must abort
//! rather than risk reuse.

use vstd::prelude::*;

verus! {

/// The greatest counter value that may still become a task identifier;
/// half of the counter's range is kept in reserve so an overflowing
/// counter is caught long before it could wrap and hand out a duplicate.
pub const TASK_ID_LIMIT: u64 = 0x7fff_ffff_ffff_ffff;

/// A unique identifier for a task.
#[derive(Eq, PartialEq, Clone, Copy, Hash, Debug, Structural)]
pub struct TaskId(pub u64);

impl TaskId {
    /// Generates the `TaskId` for the counter value `next`.  The counter
    /// starts at 1 and only grows, so each call sees a fresh value; a
    /// value past [`TASK_ID_LIMIT`] is exhausted, and the caller must
    /// abort the process instead of asking for an identifier.
    pub fn generate(next: u64) -> (id: TaskId)
        requires
            next <= TASK_ID_LIMIT,
        ensures
            id.0 == next,
    {
        TaskId(next)
    }

    /// The numeric value of this identifier.
    pub fn value(&self) -> (v: u64)
        ensures
            v == self.0,
    {
        self.0
    }
}

} // verus!
