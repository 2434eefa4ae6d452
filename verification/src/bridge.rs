//! The blocking-I/O-to-async stream bridge: a state machine that presents
//! write, flush, read and read-line over an intrinsically blocking stream as
//! poll-driven operations, with at most one blocking call in flight per
//! stream at any time.
//!
//! A bridge is either [`State::Idle`], owning its [`Inner`] resource bundle,
//! or [`State::Busy`] while the bundle travels through a dispatched blocking
//! closure on a worker.  Each poll step either consumes the outcome the last
//! completed closure recorded, hands the caller a bundle prepared for a fresh
//! dispatch, or reports that the in-flight closure has not finished yet.  The
//! caller (the unverified shell that owns the dispatcher and the OS handle)
//! runs the blocking call, records its outcome with one of the `finish_*`
//! functions, and gives the bundle back through [`Bridge::complete`].
//!
//! Every step is specified against the spec-level transition functions
//! ([`write_transition`] and friends), and the serialization and
//! stale-result-discard laws are proved over those transitions at the bottom
//! of this module.

use vstd::prelude::*;

use crate::errors::IoError;

verus! {

/// The recorded outcome of the most recently completed blocking call.
///
/// Exactly one kind is valid at a time: the one matching the operation the
/// worker actually ran.  A recorded outcome is consumed (cleared) by the
/// first poll step of the matching kind that accepts it.
#[derive(Clone, Copy, Debug, PartialEq, Eq)]
pub enum Operation {
    /// A completed blocking write: the byte count it wrote, or its failure.
    Write(Result<usize, IoError>),
    /// A completed blocking flush.
    Flush(Result<(), IoError>),
    /// A completed blocking read: the byte count it read, or its failure.
    Read(Result<usize, IoError>),
    /// A completed blocking line read: the byte count it consumed from the
    /// stream (delimiter included), or its failure.
    ReadLine(Result<usize, IoError>),
}

/// The resource bundle a bridge owns while idle and a worker owns while a
/// dispatched call runs.  It has exactly one owner at any time.
pub struct Inner {
    /// The reusable byte buffer: sized to each request as it is dispatched,
    /// holding the payload of a write or the landing space of a read.
    pub buf: Vec<u8>,
    /// The accumulator of the read-line path: cleared on dispatch, filled by
    /// the blocking line read, appended to the caller's buffer exactly once
    /// when the outcome is consumed.
    pub line: String,
    /// The outcome of the last blocking operation, if not yet consumed.
    pub last_op: Option<Operation>,
}

/// The mathematical value of an [`Inner`] bundle.
pub struct InnerModel {
    /// The contents of the reusable byte buffer.
    pub buf: Seq<u8>,
    /// The contents of the line accumulator.
    pub line: Seq<char>,
    /// The recorded outcome, if not yet consumed.
    pub last_op: Option<Operation>,
}

impl View for Inner {
    type V = InnerModel;

    open spec fn view(&self) -> InnerModel {
        InnerModel { buf: self.buf@, line: self.line@, last_op: self.last_op }
    }
}

/// The state of a bridge: the resource bundle is either held locally or
/// delegated to an in-flight blocking call.
pub enum State {
    /// The bridge owns its bundle and can answer or dispatch a request.
    Idle(Inner),
    /// A dispatched blocking call owns the bundle; its completion handle
    /// lives with the unverified shell that performed the dispatch.
    Busy,
}

/// The mathematical value of a bridge.
pub enum BridgeModel {
    /// The bridge holds this bundle.
    Idle(InnerModel),
    /// The bundle is out with a worker.
    Busy,
}

/// One stream bridge: the per-stream adapter from blocking calls to
/// poll-driven operations.
pub struct Bridge {
    /// The current state; exactly one `Inner` exists per bridge, here or
    /// with the worker of the in-flight call.
    pub state: State,
}

impl View for Bridge {
    type V = BridgeModel;

    open spec fn view(&self) -> BridgeModel {
        match self.state {
            State::Idle(inner) => BridgeModel::Idle(inner@),
            State::Busy => BridgeModel::Busy,
        }
    }
}

/// What one poll step asks of its caller.
pub enum Step<R> {
    /// The request is complete with this result; the bridge is idle again
    /// and the recorded outcome has been consumed.
    Done(R),
    /// The caller must hand this prepared bundle to the dispatcher, run the
    /// blocking call on a worker, record its outcome with the matching
    /// `finish_*` function and give the bundle back through
    /// [`Bridge::complete`].  The bridge is busy until then.
    Dispatch(Inner),
    /// A previously dispatched call is still in flight; the caller must
    /// poll its completion handle before stepping again.
    Wait,
}

/// The mathematical value of a [`Step`].
pub enum StepModel<R> {
    /// The request is complete with this result.
    Done(R),
    /// This bundle must be dispatched.
    Dispatch(InnerModel),
    /// The in-flight call has not finished.
    Wait,
}

impl<R> View for Step<R> {
    type V = StepModel<R>;

    open spec fn view(&self) -> StepModel<R> {
        match self {
            Step::Done(r) => StepModel::Done(*r),
            Step::Dispatch(inner) => StepModel::Dispatch(inner@),
            Step::Wait => StepModel::Wait,
        }
    }
}

/// The bundle of a bridge over a freshly opened stream: empty buffers, no
/// recorded outcome.
pub open spec fn fresh_inner() -> InnerModel {
    InnerModel { buf: Seq::empty(), line: Seq::empty(), last_op: None }
}

/// A bundle readied for dispatching a write: the requested payload fills the
/// byte buffer, the accumulator is untouched, and no recorded outcome
/// remains to be mistaken for the new call's result.
pub open spec fn prepared_for_write(im: InnerModel, data: Seq<u8>) -> InnerModel {
    InnerModel { buf: data, line: im.line, last_op: None }
}

/// A byte buffer sized to exactly `len` bytes: truncated if it was longer,
/// padded with zeroes if it was shorter.  The contents do not matter to a
/// read — the blocking call overwrites what it reads into.
pub open spec fn sized_to(buf: Seq<u8>, len: nat) -> Seq<u8> {
    if len <= buf.len() {
        buf.take(len as int)
    } else {
        buf + Seq::new((len - buf.len()) as nat, |i| 0u8)
    }
}

/// A bundle readied for dispatching a read of up to `len` bytes.
pub open spec fn prepared_for_read(im: InnerModel, len: nat) -> InnerModel {
    InnerModel { buf: sized_to(im.buf, len), line: im.line, last_op: None }
}

/// A bundle readied for dispatching a line read: the accumulator is cleared
/// so the blocking call collects exactly one line into it.
pub open spec fn prepared_for_read_line(im: InnerModel) -> InnerModel {
    InnerModel { buf: im.buf, line: Seq::empty(), last_op: None }
}

/// The bundle after its recorded outcome has been consumed.
pub open spec fn consumed(im: InnerModel) -> InnerModel {
    InnerModel { buf: im.buf, line: im.line, last_op: None }
}

/// One poll step of the write path, for a request carrying `data`.
///
/// Busy: wait.  Idle with a recorded write outcome: consume it — a failure
/// is reported as is; a count that fits the current request is reported as
/// the bytes written; a count larger than the current request is stale (it
/// belongs to an older, larger request) and is discarded by dispatching the
/// current request afresh.  Idle otherwise: dispatch the current request.
pub open spec fn write_transition(m: BridgeModel, data: Seq<u8>) -> (BridgeModel, StepModel<
    Result<usize, IoError>,
>) {
    match m {
        BridgeModel::Busy => (m, StepModel::Wait),
        BridgeModel::Idle(im) => match im.last_op {
            Some(Operation::Write(res)) => match res {
                Ok(n) => if n <= data.len() {
                    (BridgeModel::Idle(consumed(im)), StepModel::Done(Ok(n)))
                } else {
                    (BridgeModel::Busy, StepModel::Dispatch(prepared_for_write(im, data)))
                },
                Err(e) => (BridgeModel::Idle(consumed(im)), StepModel::Done(Err(e))),
            },
            _ => (BridgeModel::Busy, StepModel::Dispatch(prepared_for_write(im, data))),
        },
    }
}

/// One poll step of the flush path.
///
/// Busy: wait.  Idle with a recorded flush outcome: consume and report it.
/// Idle otherwise: dispatch a flush.  A flush result has no size, so no
/// staleness is possible.
pub open spec fn flush_transition(m: BridgeModel) -> (BridgeModel, StepModel<
    Result<(), IoError>,
>) {
    match m {
        BridgeModel::Busy => (m, StepModel::Wait),
        BridgeModel::Idle(im) => match im.last_op {
            Some(Operation::Flush(res)) => (BridgeModel::Idle(consumed(im)), StepModel::Done(res)),
            _ => (BridgeModel::Busy, StepModel::Dispatch(consumed(im))),
        },
    }
}

/// One poll step of the read path, for a request reading into a destination
/// that currently holds `dest`.  The third component is what the
/// destination holds after the step.
///
/// Busy: wait.  Idle with a recorded read outcome: a failure is reported as
/// is; a count consistent with both the current destination and the stored
/// buffer copies that many bytes into the front of the destination and
/// reports the count; an inconsistent count is stale and is discarded by
/// dispatching the current request afresh.  Idle otherwise: dispatch the
/// current request with the byte buffer sized to the destination.
pub open spec fn read_transition(m: BridgeModel, dest: Seq<u8>) -> (BridgeModel, StepModel<
    Result<usize, IoError>,
>, Seq<u8>) {
    match m {
        BridgeModel::Busy => (m, StepModel::Wait, dest),
        BridgeModel::Idle(im) => match im.last_op {
            Some(Operation::Read(res)) => match res {
                Ok(n) => if n <= dest.len() && n <= im.buf.len() {
                    (
                        BridgeModel::Idle(consumed(im)),
                        StepModel::Done(Ok(n)),
                        im.buf.take(n as int) + dest.skip(n as int),
                    )
                } else {
                    (
                        BridgeModel::Busy,
                        StepModel::Dispatch(prepared_for_read(im, dest.len())),
                        dest,
                    )
                },
                Err(e) => (BridgeModel::Idle(consumed(im)), StepModel::Done(Err(e)), dest),
            },
            _ => (BridgeModel::Busy, StepModel::Dispatch(prepared_for_read(im, dest.len())), dest),
        },
    }
}

/// One poll step of the read-line path, for a caller buffer that currently
/// holds `out`.  The third component is what the caller buffer holds after
/// the step.
///
/// Busy: wait.  Idle with a recorded line outcome: a failure is reported as
/// is and nothing is appended; a success appends the accumulated line to
/// the caller's buffer exactly once and reports the count.  Idle otherwise:
/// dispatch a line read with a cleared accumulator.
pub open spec fn read_line_transition(m: BridgeModel, out: Seq<char>) -> (BridgeModel, StepModel<
    Result<usize, IoError>,
>, Seq<char>) {
    match m {
        BridgeModel::Busy => (m, StepModel::Wait, out),
        BridgeModel::Idle(im) => match im.last_op {
            Some(Operation::ReadLine(res)) => match res {
                Ok(n) => (BridgeModel::Idle(consumed(im)), StepModel::Done(Ok(n)), out + im.line),
                Err(e) => (BridgeModel::Idle(consumed(im)), StepModel::Done(Err(e)), out),
            },
            _ => (BridgeModel::Busy, StepModel::Dispatch(prepared_for_read_line(im)), out),
        },
    }
}

/// Adopting a worker's bundle: only a busy bridge can adopt, and it becomes
/// idle holding exactly what the worker handed back.
pub open spec fn complete_transition(inner: InnerModel) -> BridgeModel {
    BridgeModel::Idle(inner)
}

/// Sizes `buf` to exactly `len` bytes, keeping the common prefix and
/// padding with zeroes, without ever shrinking the allocation.
fn size_buffer(buf: &mut Vec<u8>, len: usize)
    ensures
        final(buf)@ == sized_to(old(buf)@, len as nat),
{
    if len <= buf.len() {
        buf.truncate(len);
        assert(buf@ =~= sized_to(old(buf)@, len as nat));
    } else {
        while buf.len() < len
            invariant
                old(buf)@.len() < len ==> buf@ == sized_to(old(buf)@, buf@.len()),
                old(buf)@.len() <= buf@.len() <= len,
            decreases len - buf@.len(),
        {
            buf.push(0u8);
            assert(buf@ =~= sized_to(old(buf)@, buf@.len()));
        }
    }
}

/// Replaces the contents of `buf` with a copy of `data`.
fn fill_from_slice(buf: &mut Vec<u8>, data: &[u8])
    ensures
        final(buf)@ == data@,
{
    buf.clear();
    let n = data.len();
    let mut i: usize = 0;
    while i < n
        invariant
            i <= n == data@.len(),
            buf@ == data@.take(i as int),
        decreases n - i,
    {
        buf.push(data[i]);
        assert(buf@ =~= data@.take(i + 1 as int));
        i = i + 1;
    }
    assert(buf@ =~= data@);
}

/// Copies the first `n` bytes of `src` over the first `n` bytes of `dest`,
/// leaving the rest of `dest` as it was.
fn copy_prefix(dest: &mut Vec<u8>, src: &Vec<u8>, n: usize)
    requires
        n <= old(dest).len(),
        n <= src.len(),
    ensures
        final(dest)@ == src@.take(n as int) + old(dest)@.skip(n as int),
{
    let mut i: usize = 0;
    while i < n
        invariant
            i <= n <= dest@.len() == old(dest)@.len(),
            n <= src@.len(),
            forall|j: int| 0 <= j < i ==> dest@[j] == src@[j],
            forall|j: int| i <= j < dest@.len() ==> dest@[j] == old(dest)@[j],
        decreases n - i,
    {
        dest.set(i, src[i]);
        i = i + 1;
    }
    assert(dest@ =~= src@.take(n as int) + old(dest)@.skip(n as int));
}

impl Bridge {
    /// A bridge over a freshly opened stream: idle, with empty buffers and
    /// no recorded outcome.
    pub fn new() -> (b: Bridge)
        ensures
            b@ == BridgeModel::Idle(fresh_inner()),
    {
        let b = Bridge {
            state: State::Idle(Inner { buf: Vec::new(), line: String::new(), last_op: None }),
        };
        assert(b@->Idle_0.buf =~= fresh_inner().buf);
        assert(b@->Idle_0.line =~= fresh_inner().line);
        b
    }

    /// True while the resource bundle is held locally.
    pub open spec fn is_idle(self) -> bool {
        self@ is Idle
    }

    /// True while a dispatched blocking call is in flight.
    pub open spec fn is_busy(self) -> bool {
        self@ is Busy
    }

    /// One poll step of an asynchronous write of `data`; behaves exactly as
    /// [`write_transition`] describes.
    pub fn write_step(&mut self, data: &[u8]) -> (r: Step<Result<usize, IoError>>)
        ensures
            (final(self)@, r@) == write_transition(old(self)@, data@),
    {
        let mut st = State::Busy;
        core::mem::swap(&mut self.state, &mut st);
        match st {
            State::Busy => Step::Wait,
            State::Idle(mut inner) => {
                match inner.last_op.take() {
                    Some(Operation::Write(res)) => match res {
                        Ok(n) => {
                            if n <= data.len() {
                                self.state = State::Idle(inner);
                                Step::Done(Ok(n))
                            } else {
                                fill_from_slice(&mut inner.buf, data);
                                Step::Dispatch(inner)
                            }
                        },
                        Err(e) => {
                            self.state = State::Idle(inner);
                            Step::Done(Err(e))
                        },
                    },
                    _ => {
                        fill_from_slice(&mut inner.buf, data);
                        Step::Dispatch(inner)
                    },
                }
            },
        }
    }

    /// One poll step of an asynchronous flush; behaves exactly as
    /// [`flush_transition`] describes.
    pub fn flush_step(&mut self) -> (r: Step<Result<(), IoError>>)
        ensures
            (final(self)@, r@) == flush_transition(old(self)@),
    {
        let mut st = State::Busy;
        core::mem::swap(&mut self.state, &mut st);
        match st {
            State::Busy => Step::Wait,
            State::Idle(mut inner) => {
                match inner.last_op.take() {
                    Some(Operation::Flush(res)) => {
                        self.state = State::Idle(inner);
                        Step::Done(res)
                    },
                    _ => Step::Dispatch(inner),
                }
            },
        }
    }

    /// One poll step of an asynchronous read into `dest`; behaves exactly
    /// as [`read_transition`] describes.
    pub fn read_step(&mut self, dest: &mut Vec<u8>) -> (r: Step<Result<usize, IoError>>)
        ensures
            (final(self)@, r@, final(dest)@) == read_transition(old(self)@, old(dest)@),
    {
        let mut st = State::Busy;
        core::mem::swap(&mut self.state, &mut st);
        match st {
            State::Busy => Step::Wait,
            State::Idle(mut inner) => {
                match inner.last_op.take() {
                    Some(Operation::Read(res)) => match res {
                        Ok(n) => {
                            if n <= dest.len() && n <= inner.buf.len() {
                                copy_prefix(dest, &inner.buf, n);
                                self.state = State::Idle(inner);
                                Step::Done(Ok(n))
                            } else {
                                size_buffer(&mut inner.buf, dest.len());
                                Step::Dispatch(inner)
                            }
                        },
                        Err(e) => {
                            self.state = State::Idle(inner);
                            Step::Done(Err(e))
                        },
                    },
                    _ => {
                        size_buffer(&mut inner.buf, dest.len());
                        Step::Dispatch(inner)
                    },
                }
            },
        }
    }

    /// One poll step of an asynchronous line read appending to `out`;
    /// behaves exactly as [`read_line_transition`] describes.
    pub fn read_line_step(&mut self, out: &mut String) -> (r: Step<Result<usize, IoError>>)
        ensures
            (final(self)@, r@, final(out)@) == read_line_transition(old(self)@, old(out)@),
    {
        let mut st = State::Busy;
        core::mem::swap(&mut self.state, &mut st);
        match st {
            State::Busy => Step::Wait,
            State::Idle(mut inner) => {
                match inner.last_op.take() {
                    Some(Operation::ReadLine(res)) => match res {
                        Ok(n) => {
                            out.append(inner.line.as_str());
                            self.state = State::Idle(inner);
                            Step::Done(Ok(n))
                        },
                        Err(e) => {
                            self.state = State::Idle(inner);
                            Step::Done(Err(e))
                        },
                    },
                    _ => {
                        inner.line = String::new();
                        Step::Dispatch(inner)
                    },
                }
            },
        }
    }

    /// Adopt the bundle a finished worker handed back: the bridge becomes
    /// idle again, owning exactly that bundle.  Only a busy bridge — one
    /// with a dispatched call out — has a bundle to adopt.
    pub fn complete(&mut self, inner: Inner)
        requires
            old(self).is_busy(),
        ensures
            final(self)@ == complete_transition(inner@),
    {
        self.state = State::Idle(inner);
    }
}

/// Records the outcome of the blocking write a worker just ran: the bundle
/// comes back with exactly this outcome as its recorded result.
pub fn finish_write(inner: Inner, res: Result<usize, IoError>) -> (r: Inner)
    ensures
        r@ == (InnerModel { last_op: Some(Operation::Write(res)), ..inner@ }),
{
    Inner { last_op: Some(Operation::Write(res)), ..inner }
}

/// Records the outcome of the blocking flush a worker just ran.
pub fn finish_flush(inner: Inner, res: Result<(), IoError>) -> (r: Inner)
    ensures
        r@ == (InnerModel { last_op: Some(Operation::Flush(res)), ..inner@ }),
{
    Inner { last_op: Some(Operation::Flush(res)), ..inner }
}

/// Records the outcome of the blocking read a worker just ran; the bytes
/// themselves were read into the bundle's byte buffer by that call.
pub fn finish_read(inner: Inner, res: Result<usize, IoError>) -> (r: Inner)
    ensures
        r@ == (InnerModel { last_op: Some(Operation::Read(res)), ..inner@ }),
{
    Inner { last_op: Some(Operation::Read(res)), ..inner }
}

/// Records the outcome of the blocking line read a worker just ran; the
/// line itself was collected into the bundle's accumulator by that call.
pub fn finish_read_line(inner: Inner, res: Result<usize, IoError>) -> (r: Inner)
    ensures
        r@ == (InnerModel { last_op: Some(Operation::ReadLine(res)), ..inner@ }),
{
    Inner { last_op: Some(Operation::ReadLine(res)), ..inner }
}

/// Writes on one bridge are serialized and observed in issue order.
///
/// From a clean idle bridge, the first write request dispatches its payload
/// and makes the bridge busy; while the bridge is busy, every further step
/// — whatever payload it carries — waits and dispatches nothing; once the
/// worker's outcome is adopted and consumed by the first request's poll,
/// the next write request dispatches its own payload.  The underlying
/// resource therefore receives the first payload strictly before the
/// second, and never sees two blocking calls for the same stream in
/// flight at once.
pub proof fn lemma_writes_serialized_in_order(
    im: InnerModel,
    a: Seq<u8>,
    b: Seq<u8>,
    c: Seq<u8>,
    n: usize,
)
    requires
        im.last_op is None,
        n <= a.len(),
    ensures
        ({
            let (m1, s1) = write_transition(BridgeModel::Idle(im), a);
            let worker = InnerModel { last_op: Some(Operation::Write(Ok(n))), ..prepared_for_write(im, a) };
            let m2 = complete_transition(worker);
            let (m3, s3) = write_transition(m2, a);
            let (m4, s4) = write_transition(m3, b);
            &&& s1 == StepModel::<Result<usize, IoError>>::Dispatch(prepared_for_write(im, a))
            &&& m1 is Busy
            &&& write_transition(m1, c) == (m1, StepModel::<Result<usize, IoError>>::Wait)
            &&& s3 == StepModel::<Result<usize, IoError>>::Done(Ok(n))
            &&& m3 is Idle
            &&& s4 == StepModel::<Result<usize, IoError>>::Dispatch(
                prepared_for_write(consumed(worker), b),
            )
            &&& m4 is Busy
        }),
{
}

/// The stale-result discard guard for writes: no write step ever reports a
/// byte count exceeding the current request, whatever outcome an earlier,
/// larger request may have left behind.
pub proof fn lemma_write_count_bounded(m: BridgeModel, data: Seq<u8>)
    ensures
        ({
            let (m2, s) = write_transition(m, data);
            s matches StepModel::Done(res) ==> (res matches Ok(n) ==> n <= data.len())
        }),
{
}

/// The stale-result discard guard for reads: no read step ever reports a
/// byte count exceeding the current destination, and the destination's
/// length never changes — only its first bytes are overwritten by exactly
/// the count reported.
pub proof fn lemma_read_count_bounded(m: BridgeModel, dest: Seq<u8>)
    ensures
        ({
            let (m2, s, d) = read_transition(m, dest);
            &&& d.len() == dest.len()
            &&& (s matches StepModel::Done(res) ==> (res matches Ok(n) ==> n <= dest.len()))
        }),
{
}

/// A failure is reported exactly once: the step that consumes a recorded
/// write failure reports that very failure and leaves the bridge idle with
/// the outcome cleared, so the next request finds a clean bridge and
/// dispatches afresh — the failure is never seen again and never retried
/// by the bridge itself.
pub proof fn lemma_failure_reported_once(im: InnerModel, data: Seq<u8>, e: IoError)
    requires
        im.last_op == Some(Operation::Write(Err::<usize, IoError>(e))),
    ensures
        ({
            let (m1, s1) = write_transition(BridgeModel::Idle(im), data);
            &&& s1 == StepModel::<Result<usize, IoError>>::Done(Err(e))
            &&& m1 == BridgeModel::Idle(consumed(im))
            &&& write_transition(m1, data).1 is Dispatch
        }),
{
}

/// Read-line appends, and appends exactly once: two completed line reads
/// consumed one after the other leave the caller's buffer holding its
/// original contents followed by the first line and then the second —
/// nothing overwritten, nothing duplicated.
pub proof fn lemma_read_line_appends_twice(
    im1: InnerModel,
    im2: InnerModel,
    out0: Seq<char>,
    n1: usize,
    n2: usize,
)
    requires
        im1.last_op == Some(Operation::ReadLine(Ok::<usize, IoError>(n1))),
        im2.last_op == Some(Operation::ReadLine(Ok::<usize, IoError>(n2))),
    ensures
        ({
            let (m1, s1, out1) = read_line_transition(BridgeModel::Idle(im1), out0);
            let (m2, s2, out2) = read_line_transition(BridgeModel::Idle(im2), out1);
            &&& s1 == StepModel::<Result<usize, IoError>>::Done(Ok(n1))
            &&& out1 == out0 + im1.line
            &&& s2 == StepModel::<Result<usize, IoError>>::Done(Ok(n2))
            &&& out2 == out0 + im1.line + im2.line
            &&& out2.len() == out0.len() + im1.line.len() + im2.line.len()
        }),
{
}

} // verus!
