//! Error values surfaced by the stream bridges and the deadline combinator.
//!
//! Two kinds of failure exist and are never conflated: an underlying I/O
//! failure, carried through unchanged from the blocking call that produced
//! it, and a timeout, produced only by the deadline combinator.

use vstd::prelude::*;

verus! {

/// Distinguishes a deadline expiry from every other I/O failure.
#[derive(Clone, Copy, Debug, PartialEq, Eq, Structural)]
pub enum IoErrorKind {
    /// The deadline combinator gave up on an I/O operation.
    TimedOut,
    /// Any failure reported by the underlying blocking call.
    Other,
}

/// An I/O failure as the bridges record and report it.
///
/// The underlying stream's errors are opaque to the bridge: it stores them,
/// hands them to exactly one caller, and never retries on its own.  The
/// `code` field carries the raw error number of the blocking call, so a
/// failure travels through the bridge unchanged.
#[derive(Clone, Copy, Debug, PartialEq, Eq, Structural)]
pub struct IoError {
    /// Whether this failure is a deadline expiry or an ordinary I/O error.
    pub kind: IoErrorKind,
    /// The raw error number reported by the blocking call, if any.
    pub code: u64,
}

impl IoError {
    /// True exactly of the failures the deadline combinator produces.
    pub open spec fn is_timeout(self) -> bool {
        self.kind is TimedOut
    }

    /// The error the I/O deadline combinator reports when the timer fires.
    pub fn timed_out() -> (e: IoError)
        ensures
            e.is_timeout(),
            e == (IoError { kind: IoErrorKind::TimedOut, code: 0 }),
    {
        IoError { kind: IoErrorKind::TimedOut, code: 0 }
    }

    /// An ordinary I/O failure carrying the blocking call's error number.
    pub fn other(code: u64) -> (e: IoError)
        ensures
            !e.is_timeout(),
            e == (IoError { kind: IoErrorKind::Other, code }),
    {
        IoError { kind: IoErrorKind::Other, code }
    }
}

/// The error returned when the generic deadline combinator times out.
///
/// It is a kind of its own, distinct from any value the wrapped operation
/// could produce.
#[derive(Clone, Copy, Debug, PartialEq, Eq, Structural)]
pub struct TimeoutError;

impl TimeoutError {
    /// A short description of the failure, in place of a formatter.
    pub fn message(&self) -> (s: &'static str)
        ensures
            s@ == "future has timed out"@,
    {
        "future has timed out"
    }
}

} // verus!
