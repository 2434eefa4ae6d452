//! The three standard-stream handles, one bridge each.
//!
//! [`coreout`], [`coreerr`] and [`corein`] construct the asynchronous
//! handles to the standard output, error and input of the current process.
//! Each handle owns one [`Bridge`] and exposes only the operations its
//! stream supports: the output and error handles write and flush, the input
//! handle reads and reads lines.  The unverified shell that drives a handle
//! serializes access with a lock, performs the dispatched blocking calls on
//! a worker, and feeds completions back through `complete`.

use vstd::prelude::*;

use crate::bridge::Bridge;
use crate::bridge::BridgeModel;
use crate::bridge::Inner;
use crate::bridge::Step;
use crate::bridge::complete_transition;
use crate::bridge::flush_transition;
use crate::bridge::fresh_inner;
use crate::bridge::read_line_transition;
use crate::bridge::read_transition;
use crate::bridge::write_transition;
use crate::errors::IoError;

verus! {

/// A handle to the standard output of the current process: a write/flush
/// bridge over the blocking handle.
pub struct Stdout {
    /// The stream's bridge; exactly one per handle.
    pub bridge: Bridge,
}

/// A handle to the standard error of the current process: a write/flush
/// bridge over the blocking handle.
pub struct Stderr {
    /// The stream's bridge; exactly one per handle.
    pub bridge: Bridge,
}

/// A handle to the standard input of the current process: a read/read-line
/// bridge over the blocking handle.
pub struct Stdin {
    /// The stream's bridge; exactly one per handle.
    pub bridge: Bridge,
}

/// Constructs a new handle to the standard output of the current process:
/// an idle bridge with empty buffers and no recorded outcome.
pub fn coreout() -> (s: Stdout)
    ensures
        s.bridge@ == BridgeModel::Idle(fresh_inner()),
{
    Stdout { bridge: Bridge::new() }
}

/// Constructs a new handle to the standard error of the current process:
/// an idle bridge with empty buffers and no recorded outcome.
pub fn coreerr() -> (s: Stderr)
    ensures
        s.bridge@ == BridgeModel::Idle(fresh_inner()),
{
    Stderr { bridge: Bridge::new() }
}

/// Constructs a new handle to the standard input of the current process:
/// an idle bridge with empty buffers and no recorded outcome.
pub fn corein() -> (s: Stdin)
    ensures
        s.bridge@ == BridgeModel::Idle(fresh_inner()),
{
    Stdin { bridge: Bridge::new() }
}

impl Stdout {
    /// One poll of an asynchronous write of `data` to the standard output;
    /// steps the bridge exactly as `write_transition` describes.
    pub fn write_step(&mut self, data: &[u8]) -> (r: Step<Result<usize, IoError>>)
        ensures
            (final(self).bridge@, r@) == write_transition(old(self).bridge@, data@),
    {
        self.bridge.write_step(data)
    }

    /// One poll of an asynchronous flush of the standard output; steps the
    /// bridge exactly as `flush_transition` describes.
    pub fn flush_step(&mut self) -> (r: Step<Result<(), IoError>>)
        ensures
            (final(self).bridge@, r@) == flush_transition(old(self).bridge@),
    {
        self.bridge.flush_step()
    }

    /// One poll of closing the standard output.  A standard stream lives as
    /// long as the process, so closing only flushes.
    pub fn close_step(&mut self) -> (r: Step<Result<(), IoError>>)
        ensures
            (final(self).bridge@, r@) == flush_transition(old(self).bridge@),
    {
        self.bridge.flush_step()
    }

    /// Adopt the bundle a finished worker handed back.
    pub fn complete(&mut self, inner: Inner)
        requires
            old(self).bridge.is_busy(),
        ensures
            final(self).bridge@ == complete_transition(inner@),
    {
        self.bridge.complete(inner);
    }
}

impl Stderr {
    /// One poll of an asynchronous write of `data` to the standard error;
    /// steps the bridge exactly as `write_transition` describes.
    pub fn write_step(&mut self, data: &[u8]) -> (r: Step<Result<usize, IoError>>)
        ensures
            (final(self).bridge@, r@) == write_transition(old(self).bridge@, data@),
    {
        self.bridge.write_step(data)
    }

    /// One poll of an asynchronous flush of the standard error; steps the
    /// bridge exactly as `flush_transition` describes.
    pub fn flush_step(&mut self) -> (r: Step<Result<(), IoError>>)
        ensures
            (final(self).bridge@, r@) == flush_transition(old(self).bridge@),
    {
        self.bridge.flush_step()
    }

    /// One poll of closing the standard error; closing only flushes.
    pub fn close_step(&mut self) -> (r: Step<Result<(), IoError>>)
        ensures
            (final(self).bridge@, r@) == flush_transition(old(self).bridge@),
    {
        self.bridge.flush_step()
    }

    /// Adopt the bundle a finished worker handed back.
    pub fn complete(&mut self, inner: Inner)
        requires
            old(self).bridge.is_busy(),
        ensures
            final(self).bridge@ == complete_transition(inner@),
    {
        self.bridge.complete(inner);
    }
}

impl Stdin {
    /// One poll of an asynchronous read from the standard input into
    /// `dest`; steps the bridge exactly as `read_transition` describes.
    pub fn read_step(&mut self, dest: &mut Vec<u8>) -> (r: Step<Result<usize, IoError>>)
        ensures
            (final(self).bridge@, r@, final(dest)@) == read_transition(
                old(self).bridge@,
                old(dest)@,
            ),
    {
        self.bridge.read_step(dest)
    }

    /// One poll of an asynchronous line read from the standard input,
    /// appending the line to `out`; steps the bridge exactly as
    /// `read_line_transition` describes.
    pub fn read_line_step(&mut self, out: &mut String) -> (r: Step<Result<usize, IoError>>)
        ensures
            (final(self).bridge@, r@, final(out)@) == read_line_transition(
                old(self).bridge@,
                old(out)@,
            ),
    {
        self.bridge.read_line_step(out)
    }

    /// Adopt the bundle a finished worker handed back.
    pub fn complete(&mut self, inner: Inner)
        requires
            old(self).bridge.is_busy(),
        ensures
            final(self).bridge@ == complete_transition(inner@),
    {
        self.bridge.complete(inner);
    }
}

} // verus!
