use bytes::BytesMut;
use fuse_channel::errno::{FuseError, IoError, SessionError};
use fuse_channel::fuse_receiver::{
    receive_error_labels, splice_errno_label, AuditRecord, FuseReceiver, LoopNext, ReceivePath,
    ReceiverEvent, FUSE_IN_HEADER_LEN, RECEIVE_ACTION_CONTINUE, RECEIVE_ACTION_EXIT,
};
use fuse_channel::metrics::{FuseReqKind, FuseReqLabels, GaugeId, Gauges};
use fuse_channel::request::{FuseOpCode, FuseRequest, RequestHeader};
use libc::{EAGAIN, EINTR, EIO, ENODEV, ENOENT, ENOSYS};

fn receiver(enable_splice: bool) -> FuseReceiver {
    FuseReceiver::new(128, false, false, true, enable_splice)
}

fn request(opcode: FuseOpCode, unique: u64, meta: bool) -> FuseRequest {
    FuseRequest { unique, opcode, header: Some(RequestHeader { len: 64, nodeid: 7 }), meta }
}

#[test]
fn error_numbers_are_the_platforms() {
    assert_eq!(fuse_channel::errno::ENOENT, ENOENT);
    assert_eq!(fuse_channel::errno::EINTR, EINTR);
    assert_eq!(fuse_channel::errno::EAGAIN, EAGAIN);
    assert_eq!(fuse_channel::errno::ENODEV, ENODEV);
    assert_eq!(fuse_channel::errno::ENOSYS, ENOSYS);
}

#[test]
fn receive_error_labels_classify_errno_and_action() {
    // continue arms: lowercase errno, action=continue.
    assert_eq!(receive_error_labels(Some(ENOENT)), ("enoent", RECEIVE_ACTION_CONTINUE));
    assert_eq!(receive_error_labels(Some(EINTR)), ("eintr", RECEIVE_ACTION_CONTINUE));
    assert_eq!(receive_error_labels(Some(EAGAIN)), ("eagain", RECEIVE_ACTION_CONTINUE));
    // ENODEV: graceful break -> exit.
    assert_eq!(receive_error_labels(Some(ENODEV)), ("enodev", RECEIVE_ACTION_EXIT));
    // unknown errno and missing errno -> other/exit.
    assert_eq!(receive_error_labels(Some(EIO)), ("other", RECEIVE_ACTION_EXIT));
    assert_eq!(receive_error_labels(None), ("other", RECEIVE_ACTION_EXIT));
}

#[test]
fn action_labels_are_continue_and_exit() {
    assert_eq!(RECEIVE_ACTION_CONTINUE, "continue");
    assert_eq!(RECEIVE_ACTION_EXIT, "exit");
    assert_eq!(splice_errno_label(0), "other");
    assert_eq!(splice_errno_label(ENODEV), "enodev");
}

#[test]
fn receive_prefers_the_pipe() {
    assert_eq!(receiver(true).receive(), ReceivePath::Splice);
    assert_eq!(receiver(false).receive(), ReceivePath::Read);
}

#[test]
fn read_hands_out_what_was_read() {
    let mut rx = receiver(false);
    for round in 0..3u8 {
        rx.prepare_read();
        assert_eq!(rx.buffer_mut().len(), 128);
        for (i, b) in rx.buffer_mut()[..64].iter_mut().enumerate() {
            *b = round + i as u8;
        }
        let request: BytesMut = rx.read(64).unwrap();
        assert_eq!(request.len(), 64);
        for (i, b) in request.iter().enumerate() {
            assert_eq!(*b, round + i as u8);
        }
        // What follows the request stays in the buffer.
        assert_eq!(rx.buffer_mut().len(), 64);
        assert!(rx.buffer_mut().iter().all(|b| *b == 0));
    }
}

#[test]
fn read_refuses_less_than_a_header() {
    assert_eq!(FUSE_IN_HEADER_LEN, 40);
    let mut rx = receiver(false);
    rx.prepare_read();
    assert_eq!(rx.read(39).unwrap_err(), IoError::ShortRead);
    assert_eq!(rx.read(0).unwrap_err(), IoError::ShortRead);
    assert_eq!(rx.read(40).unwrap().len(), 40);
    rx.prepare_read();
    assert_eq!(rx.read(128).unwrap().len(), 128);
}

#[test]
fn splice_hands_out_what_was_moved() {
    let mut rx = receiver(true);
    rx.prepare_splice(48);
    assert_eq!(rx.buffer_mut().len(), 48);
    rx.buffer_mut()[47] = 9;
    let request = rx.splice(48, 48).unwrap();
    assert_eq!(request.len(), 48);
    assert_eq!(request[47], 9);
    assert!(rx.buffer_mut().is_empty());
}

#[test]
fn splice_refuses_mismatch_before_shortness() {
    let mut rx = receiver(true);
    rx.prepare_splice(48);
    assert_eq!(
        rx.splice(48, 20).unwrap_err(),
        IoError::SpliceMismatch { write_len: 48, read_len: 20 }
    );
    rx.prepare_splice(20);
    assert_eq!(rx.splice(20, 20).unwrap_err(), IoError::ShortRead);
    let mut plain = receiver(false);
    plain.prepare_splice(48);
    assert_eq!(plain.splice(48, 48).unwrap_err(), IoError::NoPipe);
}

#[test]
fn own_failures_end_the_loop() {
    let rx = receiver(true);
    for e in [
        IoError::ShortRead,
        IoError::NoPipe,
        IoError::SpliceMismatch { write_len: 1, read_len: 2 },
        IoError::Os(EIO),
    ] {
        let step = rx.start(ReceiverEvent::ReceiveFailed(e));
        assert_eq!(step.receive_error, Some(("other", "exit")));
        match step.next {
            LoopNext::Fail(err) => assert_eq!(err, SessionError::Io(e)),
            _ => panic!("the loop is left with the error"),
        }
    }
}

#[test]
fn harmless_failures_keep_the_loop_running() {
    let rx = receiver(true);
    for (errno, label) in [(ENOENT, "enoent"), (EINTR, "eintr"), (EAGAIN, "eagain")] {
        let step = rx.start(ReceiverEvent::ReceiveFailed(IoError::Os(errno)));
        assert!(matches!(step.next, LoopNext::Continue));
        assert_eq!(step.receive_error, Some((label, "continue")));
        assert!(!step.loop_wait);
    }
    let step = rx.start(ReceiverEvent::ReceiveFailed(IoError::Os(ENODEV)));
    assert!(matches!(step.next, LoopNext::Break));
    assert_eq!(step.receive_error, Some(("enodev", "exit")));
}

#[test]
fn disabled_metrics_count_no_failure() {
    let rx = FuseReceiver::new(64, false, false, false, true);
    let step = rx.start(ReceiverEvent::ReceiveFailed(IoError::Os(EINTR)));
    assert_eq!(step.receive_error, None);
    assert!(matches!(step.next, LoopNext::Continue));
    let step = rx.start(ReceiverEvent::Received(Err(FuseError { errno: EIO })));
    assert_eq!(step.decode_error, None);
    assert!(!step.loop_wait);
    assert!(matches!(step.next, LoopNext::Fail(SessionError::Fuse(FuseError { errno: EIO }))));
}

#[test]
fn undecodable_request_ends_the_loop() {
    let rx = receiver(true);
    let step = rx.start(ReceiverEvent::Received(Err(FuseError { errno: EIO })));
    assert!(step.loop_wait);
    assert_eq!(step.decode_error, Some("other"));
    assert!(matches!(step.next, LoopNext::Fail(SessionError::Fuse(FuseError { errno: EIO }))));
}

#[test]
fn shutdown_ends_the_loop_when_it_is_set() {
    let rx = receiver(true);
    assert!(matches!(rx.start(ReceiverEvent::Shutdown(true)).next, LoopNext::Break));
    assert!(matches!(rx.start(ReceiverEvent::Shutdown(false)).next, LoopNext::Continue));
}

#[test]
fn requests_are_routed_by_family() {
    let rx = receiver(true);
    for op in [
        FuseOpCode::Read,
        FuseOpCode::Write,
        FuseOpCode::Flush,
        FuseOpCode::Release,
        FuseOpCode::Fsync,
    ] {
        let req = request(op, 5, false);
        let step = rx.start(ReceiverEvent::Received(Ok(req)));
        assert_eq!(step.next, LoopNext::Stream(req));
    }
    let req = request(FuseOpCode::GetAttr, 6, true);
    let step = rx.start(ReceiverEvent::Received(Ok(req)));
    assert!(step.loop_wait);
    assert_eq!(step.next, LoopNext::Meta(req));
}

#[test]
fn a_metadata_task_is_in_flight_until_it_ends() {
    let rx = receiver(true);
    let mut g = Gauges::new();
    let req = request(FuseOpCode::GetAttr, 6, true);
    let (reply, mut task) = rx.submit_meta(&mut g, &req);
    assert!(reply.is_metered());
    assert!(!reply.is_finished());
    assert_eq!(g.get(GaugeId::ActiveMetadata), 1);
    assert_eq!(g.get(GaugeId::MetaTaskInflight), 1);
    assert!(task.poll(), "the first poll observes the spawn delay");
    assert!(!task.poll(), "a later one does not");
    assert_eq!(g.get(GaugeId::MetaTaskInflight), 1);
    task.end(&mut g);
    assert_eq!(g.get(GaugeId::MetaTaskInflight), 0);
    assert_eq!(g.get(GaugeId::ActiveMetadata), 1);

    // A task that is dropped before it was polled gives its unit back too.
    let (_, unpolled) = rx.submit_meta(&mut g, &req);
    unpolled.end(&mut g);
    assert_eq!(g.get(GaugeId::MetaTaskInflight), 0);
}

#[test]
fn unmetered_requests_touch_no_gauge() {
    let rx = FuseReceiver::new(64, false, false, false, false);
    let mut g = Gauges::new();
    let req = request(FuseOpCode::GetAttr, 6, true);
    assert_eq!(rx.start(ReceiverEvent::Received(Ok(req))).next, LoopNext::Meta(req));
    let (reply, mut task) = rx.submit_meta(&mut g, &req);
    assert!(!reply.is_metered());
    assert!(!task.poll());
    assert_eq!(g.get(GaugeId::ActiveMetadata), 0);
    assert_eq!(g.get(GaugeId::MetaTaskInflight), 0);
    task.end(&mut g);
    assert_eq!(g.get(GaugeId::MetaTaskInflight), 0);
}

// What a receiver dispatches at these events, and how its loop is left.
fn run(
    rx: &FuseReceiver,
    events: &[ReceiverEvent],
) -> (Vec<FuseRequest>, Option<Result<(), SessionError>>) {
    let mut dispatched = vec![];
    for event in events {
        let event = match event {
            ReceiverEvent::Received(res) => ReceiverEvent::Received(*res),
            ReceiverEvent::ReceiveFailed(e) => ReceiverEvent::ReceiveFailed(*e),
            ReceiverEvent::Shutdown(down) => ReceiverEvent::Shutdown(*down),
        };
        match rx.start(event).next {
            LoopNext::Continue => {}
            LoopNext::Break => return (dispatched, Some(Ok(()))),
            LoopNext::Fail(e) => return (dispatched, Some(Err(e))),
            LoopNext::Stream(req) | LoopNext::Meta(req) => dispatched.push(req),
        }
    }
    (dispatched, None)
}

#[test]
fn transient_failures_change_nothing_in_a_run() {
    let rx = receiver(true);
    let (a, b) = (request(FuseOpCode::Read, 1, false), request(FuseOpCode::Lookup, 2, true));
    let calm = [
        ReceiverEvent::Received(Ok(a)),
        ReceiverEvent::Received(Ok(b)),
        ReceiverEvent::ReceiveFailed(IoError::Os(ENODEV)),
    ];
    let rough = [
        ReceiverEvent::ReceiveFailed(IoError::Os(EINTR)),
        ReceiverEvent::Received(Ok(a)),
        ReceiverEvent::ReceiveFailed(IoError::Os(ENOENT)),
        ReceiverEvent::ReceiveFailed(IoError::Os(EAGAIN)),
        ReceiverEvent::Received(Ok(b)),
        ReceiverEvent::ReceiveFailed(IoError::Os(ENODEV)),
    ];
    assert_eq!(run(&rx, &calm), (vec![a, b], Some(Ok(()))));
    assert_eq!(run(&rx, &rough), run(&rx, &calm));
}

#[test]
fn settings_change_nothing_in_a_run() {
    let events = [
        ReceiverEvent::Received(Ok(request(FuseOpCode::Write, 1, false))),
        ReceiverEvent::Shutdown(false),
        ReceiverEvent::Received(Ok(request(FuseOpCode::Mkdir, 2, true))),
        ReceiverEvent::ReceiveFailed(IoError::Os(EIO)),
    ];
    let loud = FuseReceiver::new(64, true, true, true, true);
    let quiet = FuseReceiver::new(64, false, false, false, false);
    let (dispatched, result) = run(&loud, &events);
    assert_eq!(dispatched.len(), 2);
    assert_eq!(result, Some(Err(SessionError::Io(IoError::Os(EIO)))));
    assert_eq!(run(&quiet, &events), (dispatched, result));
}

#[test]
fn debug_logs_and_audit_lines() {
    let rx = FuseReceiver::new(64, true, true, false, false);
    let step = rx.start(ReceiverEvent::Received(Ok(request(FuseOpCode::Mkdir, 11, true))));
    assert_eq!(step.log, Some((11, FuseOpCode::Mkdir)));
    assert_eq!(step.audit, Some(AuditRecord { unique: 11, ino: 7, opcode: FuseOpCode::Mkdir }));
    let step = rx.start(ReceiverEvent::Received(Ok(request(FuseOpCode::Read, 12, false))));
    assert_eq!(step.audit, None);
    let headless = FuseRequest { header: None, ..request(FuseOpCode::Mkdir, 13, true) };
    assert_eq!(
        rx.audit(&headless),
        Some(AuditRecord { unique: 13, ino: 0, opcode: FuseOpCode::Mkdir })
    );
    let quiet = FuseReceiver::new(64, false, false, false, false);
    let step = quiet.start(ReceiverEvent::Received(Ok(request(FuseOpCode::Mkdir, 11, true))));
    assert_eq!(step.audit, None);
    assert_eq!(step.log, None);
}

#[test]
fn labels_follow_the_request() {
    assert_eq!(
        FuseReceiver::req_labels(&request(FuseOpCode::Write, 1, false)),
        FuseReqLabels { opcode: FuseOpCode::Write, kind: FuseReqKind::Stream, request_bytes: 64 }
    );
    let headless = FuseRequest { header: None, ..request(FuseOpCode::Lookup, 1, true) };
    assert_eq!(
        FuseReceiver::req_labels(&headless),
        FuseReqLabels { opcode: FuseOpCode::Lookup, kind: FuseReqKind::Metadata, request_bytes: 0 }
    );
    let off = FuseReceiver::new(64, false, false, false, false);
    assert_eq!(off.maybe_req_labels(&headless), None);
    assert!(receiver(false).maybe_req_labels(&headless).is_some());
}
