//! Scenario tests for the stream bridge state machine: each test plays the
//! roles of the polling caller, the dispatcher and the worker, and checks
//! what the bridge reports and what ends up in the caller's buffers.

use async_core::bridge::{finish_flush, finish_read, finish_read_line, finish_write, Inner, State, Step};
use async_core::errors::{IoError, IoErrorKind};
use async_core::stdio::{coreerr, corein, coreout};

fn idle_inner(state: &State) -> &Inner {
    match state {
        State::Idle(inner) => inner,
        State::Busy => panic!("bridge unexpectedly busy"),
    }
}

#[test]
fn write_hello_completes_with_five() {
    // Bridge starts idle; a write of b"hello" first dispatches, and once the
    // worker reports Write(Ok(5)) the next poll returns Ok(5) and leaves the
    // bridge idle with no residual recorded outcome.
    let mut out = coreout();
    let inner = match out.write_step(b"hello") {
        Step::Dispatch(inner) => inner,
        _ => panic!("fresh bridge must dispatch the first write"),
    };
    assert_eq!(inner.buf, b"hello".to_vec());
    assert!(matches!(out.bridge.state, State::Busy));

    let done = finish_write(inner, Ok(5));
    out.complete(done);

    match out.write_step(b"hello") {
        Step::Done(res) => assert_eq!(res, Ok(5)),
        _ => panic!("completed write must be reported"),
    }
    let inner = idle_inner(&out.bridge.state);
    assert!(inner.last_op.is_none());
}

#[test]
fn stale_write_result_is_discarded() {
    // A write of 5 bytes completes with Ok(5) while unconsumed; a following
    // write of only 2 bytes must not report 5 — the stale count is dropped
    // and the smaller request is dispatched afresh.
    let mut out = coreout();
    let inner = match out.write_step(b"12345") {
        Step::Dispatch(inner) => inner,
        _ => panic!("fresh bridge must dispatch"),
    };
    out.complete(finish_write(inner, Ok(5)));

    let inner = match out.write_step(b"ab") {
        Step::Dispatch(inner) => inner,
        Step::Done(res) => panic!("stale count must not be consumed, got {:?}", res),
        Step::Wait => panic!("bridge is idle"),
    };
    assert_eq!(inner.buf, b"ab".to_vec());
    assert!(inner.last_op.is_none());

    out.complete(finish_write(inner, Ok(2)));
    match out.write_step(b"ab") {
        Step::Done(res) => assert_eq!(res, Ok(2)),
        _ => panic!("completed write must be reported"),
    }
}

#[test]
fn busy_bridge_never_dispatches_a_second_call() {
    // While one blocking call is in flight every further poll waits; the
    // second payload is only dispatched after the first completes and its
    // result is consumed — writes reach the resource in issue order.
    let mut err = coreerr();
    let inner = match err.write_step(b"first") {
        Step::Dispatch(inner) => inner,
        _ => panic!("fresh bridge must dispatch"),
    };
    for _ in 0..3 {
        assert!(matches!(err.write_step(b"second"), Step::Wait));
    }
    err.complete(finish_write(inner, Ok(5)));
    match err.write_step(b"first") {
        Step::Done(res) => assert_eq!(res, Ok(5)),
        _ => panic!("first write must complete first"),
    }
    let inner = match err.write_step(b"second") {
        Step::Dispatch(inner) => inner,
        _ => panic!("second write must dispatch after the first completed"),
    };
    assert_eq!(inner.buf, b"second".to_vec());
}

#[test]
fn write_failure_is_reported_exactly_once() {
    // A failed write surfaces to the poll that consumes it, and the next
    // request finds a clean idle bridge and dispatches afresh.
    let mut out = coreout();
    let inner = match out.write_step(b"data") {
        Step::Dispatch(inner) => inner,
        _ => panic!("fresh bridge must dispatch"),
    };
    out.complete(finish_write(inner, Err(IoError::other(13))));
    match out.write_step(b"data") {
        Step::Done(res) => assert_eq!(res, Err(IoError::other(13))),
        _ => panic!("failure must be reported"),
    }
    assert!(matches!(out.write_step(b"data"), Step::Dispatch(_)));
}

#[test]
fn flush_round_trip() {
    let mut out = coreout();
    let inner = match out.flush_step() {
        Step::Dispatch(inner) => inner,
        _ => panic!("fresh bridge must dispatch the flush"),
    };
    assert!(matches!(out.flush_step(), Step::Wait));
    out.complete(finish_flush(inner, Ok(())));
    match out.flush_step() {
        Step::Done(res) => assert_eq!(res, Ok(())),
        _ => panic!("completed flush must be reported"),
    }
}

#[test]
fn close_only_flushes() {
    let mut out = coreout();
    let inner = match out.close_step() {
        Step::Dispatch(inner) => inner,
        _ => panic!("close on an idle bridge dispatches a flush"),
    };
    out.complete(finish_flush(inner, Ok(())));
    match out.close_step() {
        Step::Done(res) => assert_eq!(res, Ok(())),
        _ => panic!("completed flush must be reported"),
    }
}

#[test]
fn mismatched_outcome_is_not_consumed_by_write() {
    // A recorded flush outcome cannot satisfy a write request: the write
    // dispatches afresh (the unconsumed flush result is superseded).
    let mut out = coreout();
    let inner = match out.flush_step() {
        Step::Dispatch(inner) => inner,
        _ => panic!("fresh bridge must dispatch"),
    };
    out.complete(finish_flush(inner, Ok(())));
    let inner = match out.write_step(b"xy") {
        Step::Dispatch(inner) => inner,
        Step::Done(_) => panic!("a flush outcome must not complete a write"),
        Step::Wait => panic!("bridge is idle"),
    };
    assert_eq!(inner.buf, b"xy".to_vec());
}

#[test]
fn read_copies_exactly_the_reported_count() {
    let mut sin = corein();
    let mut dest = vec![0u8; 4];
    let mut inner = match sin.read_step(&mut dest) {
        Step::Dispatch(inner) => inner,
        _ => panic!("fresh bridge must dispatch the read"),
    };
    // The buffer was sized to the destination; the blocking read fills it.
    assert_eq!(inner.buf.len(), 4);
    inner.buf[..3].copy_from_slice(b"abc");
    sin.complete(finish_read(inner, Ok(3)));

    match sin.read_step(&mut dest) {
        Step::Done(res) => assert_eq!(res, Ok(3)),
        _ => panic!("completed read must be reported"),
    }
    assert_eq!(dest, vec![b'a', b'b', b'c', 0]);
}

#[test]
fn stale_read_result_is_discarded() {
    // A read completed for a 4-byte request must not be handed to a 2-byte
    // request; the bridge re-dispatches with a 2-byte buffer instead.
    let mut sin = corein();
    let mut dest = vec![0u8; 4];
    let inner = match sin.read_step(&mut dest) {
        Step::Dispatch(inner) => inner,
        _ => panic!("fresh bridge must dispatch"),
    };
    sin.complete(finish_read(inner, Ok(4)));

    let mut small = vec![0u8; 2];
    let inner = match sin.read_step(&mut small) {
        Step::Dispatch(inner) => inner,
        Step::Done(res) => panic!("stale count must not be consumed, got {:?}", res),
        Step::Wait => panic!("bridge is idle"),
    };
    assert_eq!(inner.buf.len(), 2);
    assert_eq!(small, vec![0u8, 0u8]);
}

#[test]
fn read_failure_leaves_destination_untouched() {
    let mut sin = corein();
    let mut dest = vec![7u8; 3];
    let inner = match sin.read_step(&mut dest) {
        Step::Dispatch(inner) => inner,
        _ => panic!("fresh bridge must dispatch"),
    };
    sin.complete(finish_read(inner, Err(IoError::other(5))));
    match sin.read_step(&mut dest) {
        Step::Done(res) => {
            let e = res.expect_err("the recorded failure must surface");
            assert_eq!(e.kind, IoErrorKind::Other);
            assert_eq!(e.code, 5);
        },
        _ => panic!("failure must be reported"),
    }
    assert_eq!(dest, vec![7u8; 3]);
}

#[test]
fn read_line_appends_two_lines_in_order() {
    // Two completed line reads append two lines' worth of content to the
    // caller's buffer: nothing is overwritten, nothing duplicated.
    let mut sin = corein();
    let mut out = String::from("log: ");

    let mut inner = match sin.read_line_step(&mut out) {
        Step::Dispatch(inner) => inner,
        _ => panic!("fresh bridge must dispatch the line read"),
    };
    assert_eq!(inner.line, "");
    inner.line.push_str("one\n");
    sin.complete(finish_read_line(inner, Ok(4)));
    match sin.read_line_step(&mut out) {
        Step::Done(res) => assert_eq!(res, Ok(4)),
        _ => panic!("completed line read must be reported"),
    }
    assert_eq!(out, "log: one\n");

    let mut inner = match sin.read_line_step(&mut out) {
        Step::Dispatch(inner) => inner,
        _ => panic!("second line read must dispatch"),
    };
    // The accumulator was cleared on dispatch, so the old line cannot be
    // appended a second time.
    assert_eq!(inner.line, "");
    inner.line.push_str("two\n");
    sin.complete(finish_read_line(inner, Ok(4)));
    match sin.read_line_step(&mut out) {
        Step::Done(res) => assert_eq!(res, Ok(4)),
        _ => panic!("completed line read must be reported"),
    }
    assert_eq!(out, "log: one\ntwo\n");
}

#[test]
fn read_line_failure_appends_nothing() {
    let mut sin = corein();
    let mut out = String::from("keep");
    let inner = match sin.read_line_step(&mut out) {
        Step::Dispatch(inner) => inner,
        _ => panic!("fresh bridge must dispatch"),
    };
    sin.complete(finish_read_line(inner, Err(IoError::other(1))));
    match sin.read_line_step(&mut out) {
        Step::Done(res) => assert!(res.is_err()),
        _ => panic!("failure must be reported"),
    }
    assert_eq!(out, "keep");
}

#[test]
fn empty_write_completes_with_zero() {
    let mut out = coreout();
    let inner = match out.write_step(b"") {
        Step::Dispatch(inner) => inner,
        _ => panic!("fresh bridge must dispatch"),
    };
    assert_eq!(inner.buf.len(), 0);
    out.complete(finish_write(inner, Ok(0)));
    match out.write_step(b"") {
        Step::Done(res) => assert_eq!(res, Ok(0)),
        _ => panic!("completed write must be reported"),
    }
}
