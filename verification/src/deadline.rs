//! The deadline combinator: bounds the lifetime of an arbitrary suspendable
//! operation by racing it against a one-shot timer.
//!
//! Each poll, the caller polls the wrapped operation first and — only if it
//! is still pending — the timer, then hands both observations to
//! [`Deadline::poll_race`] (or [`Deadline::poll_io_race`] for operations
//! that already produce I/O results).  Completion strictly beats the
//! deadline: a result that is available is reported even when the timer
//! elapsed in the same instant.  Once the race is decided the combinator is
//! consumed, so neither the operation nor the timer is ever polled again
//! through it.

use vstd::prelude::*;

use crate::errors::IoError;
use crate::errors::IoErrorKind;
use crate::errors::TimeoutError;

verus! {

/// What one poll of the deadline combinator reports to its caller.
#[derive(Clone, Copy, Debug, PartialEq, Eq)]
pub enum DeadlinePoll<R> {
    /// The race is decided, with the wrapped operation's result or a
    /// timeout failure.
    Ready(R),
    /// Neither the operation nor the timer was ready; the caller's
    /// scheduler will poll again later.
    Pending,
}

/// The decision one poll makes, given whether the wrapped operation has
/// completed and whether the timer has elapsed.
pub open spec fn race_decision<T>(completed: Option<T>, elapsed: bool) -> DeadlinePoll<
    Result<T, TimeoutError>,
> {
    match completed {
        Some(v) => DeadlinePoll::Ready(Ok(v)),
        None => if elapsed {
            DeadlinePoll::Ready(Err(TimeoutError))
        } else {
            DeadlinePoll::Pending
        },
    }
}

/// The same race for an operation that itself produces an I/O result: the
/// deadline expiring becomes a typed I/O timeout error, so the combined
/// operation composes with other I/O operations, while the wrapped
/// operation's own successes and failures pass through unchanged.
pub open spec fn io_race_decision<T>(completed: Option<Result<T, IoError>>, elapsed: bool) -> DeadlinePoll<
    Result<T, IoError>,
> {
    match completed {
        Some(r) => DeadlinePoll::Ready(r),
        None => if elapsed {
            DeadlinePoll::Ready(Err(IoError { kind: IoErrorKind::TimedOut, code: 0 }))
        } else {
            DeadlinePoll::Pending
        },
    }
}

/// A one-shot timer as the combinator reads it: armed with a deadline
/// instant, it is elapsed at exactly the instants at or past that deadline.
/// Instants are ticks of whatever monotonic clock the caller polls with.
#[derive(Clone, Copy, Debug, PartialEq, Eq, Structural)]
pub struct Timer {
    /// The first instant at which the timer is elapsed.
    pub deadline: u64,
}

impl Timer {
    /// Whether the timer has elapsed by the instant `now`.
    pub open spec fn elapsed_at(self, now: u64) -> bool {
        now >= self.deadline
    }

    /// Arms a timer to elapse `dur` ticks after `now`; a deadline beyond
    /// the clock's range saturates to the clock's last instant.
    pub fn new(now: u64, dur: u64) -> (t: Timer)
        ensures
            t.deadline == if now + dur <= u64::MAX {
                now + dur
            } else {
                u64::MAX as int
            },
    {
        if dur <= u64::MAX - now {
            Timer { deadline: now + dur }
        } else {
            Timer { deadline: u64::MAX }
        }
    }

    /// One poll of the timer at instant `now`.
    pub fn poll_at(&self, now: u64) -> (elapsed: bool)
        ensures
            elapsed == self.elapsed_at(now),
    {
        now >= self.deadline
    }
}

/// The combinator's own state: whether the race has been decided.  Once a
/// poll reports `Ready` the combinator is consumed — it holds the only
/// access to the wrapped operation and the timer, so neither is ever
/// polled again after the race is decided.
pub struct Deadline {
    /// True from the moment a poll reports `Ready`.
    pub decided: bool,
}

impl Deadline {
    /// A fresh race: nothing has been decided yet.
    pub fn new() -> (d: Deadline)
        ensures
            !d.decided,
    {
        Deadline { decided: false }
    }

    /// One poll of the generic combinator.  `completed` is what polling
    /// the wrapped operation just yielded; `elapsed` is what polling the
    /// timer yielded, polled only when the operation was still pending.
    /// The decision is exactly [`race_decision`], and the combinator is
    /// decided exactly when the poll reports `Ready`.
    pub fn poll_race<T>(&mut self, completed: Option<T>, elapsed: bool) -> (r: DeadlinePoll<
        Result<T, TimeoutError>,
    >)
        requires
            !old(self).decided,
        ensures
            r == race_decision(completed, elapsed),
            final(self).decided == (r is Ready),
    {
        match completed {
            Some(v) => {
                self.decided = true;
                DeadlinePoll::Ready(Ok(v))
            },
            None => {
                if elapsed {
                    self.decided = true;
                    DeadlinePoll::Ready(Err(TimeoutError))
                } else {
                    DeadlinePoll::Pending
                }
            },
        }
    }

    /// One poll of the I/O combinator: as [`poll_race`], but a timeout is
    /// reported as a typed I/O error, per [`io_race_decision`].
    pub fn poll_io_race<T>(&mut self, completed: Option<Result<T, IoError>>, elapsed: bool) -> (r:
        DeadlinePoll<Result<T, IoError>>)
        requires
            !old(self).decided,
        ensures
            r == io_race_decision(completed, elapsed),
            final(self).decided == (r is Ready),
    {
        match completed {
            Some(res) => {
                self.decided = true;
                DeadlinePoll::Ready(res)
            },
            None => {
                if elapsed {
                    self.decided = true;
                    DeadlinePoll::Ready(Err(IoError::timed_out()))
                } else {
                    DeadlinePoll::Pending
                }
            },
        }
    }
}

/// A completed operation always wins the race: whatever the timer says —
/// even if the deadline elapsed in the very same instant — the combinator
/// reports the operation's result and never a timeout.
pub proof fn lemma_completion_beats_deadline<T>(v: T, elapsed: bool)
    ensures
        race_decision(Some(v), elapsed) == DeadlinePoll::Ready(Ok::<T, TimeoutError>(v)),
{
}

/// The I/O shape of the same law: a completed operation's own result —
/// success or failure — is reported unchanged, never replaced by the
/// timeout error.
pub proof fn lemma_io_completion_beats_deadline<T>(res: Result<T, IoError>, elapsed: bool)
    ensures
        io_race_decision(Some(res), elapsed) == DeadlinePoll::Ready(res),
{
}

/// A timeout comes no earlier than the deadline: while an operation stays
/// pending, polling against a timer armed with deadline `t.deadline` stays
/// pending at every instant before the deadline, and reports the timeout
/// failure at every instant from the deadline on.  Once reported, the
/// combinator is decided and the wrapped operation is never polled again.
pub proof fn lemma_timeout_no_earlier_than_deadline<T>(t: Timer, now: u64)
    ensures
        now < t.deadline ==> race_decision::<T>(None, t.elapsed_at(now)) is Pending,
        now >= t.deadline ==> race_decision::<T>(None, t.elapsed_at(now)) == DeadlinePoll::Ready(
            Err::<T, TimeoutError>(TimeoutError),
        ),
{
}

/// The timer's elapsed signal is monotone in time: once elapsed, it stays
/// elapsed, so a timer fires at most once and never un-fires.
pub proof fn lemma_timer_monotone(t: Timer, now1: u64, now2: u64)
    requires
        now1 <= now2,
        t.elapsed_at(now1),
    ensures
        t.elapsed_at(now2),
{
}

} // verus!
