// A stream dispatch from the parsed request to its end: the scopes that it opens and
// closes, and the answer to an operation that fails.
use fuse_channel::errno::{FuseError, IoError, SessionError};
use fuse_channel::fuse_receiver::{
    FuseReceiver, InterruptOutcome, InterruptPlan, StreamAction,
};
use fuse_channel::fuse_sender::{settle, FuseSender};
use fuse_channel::metrics::{
    ActiveGuard, FuseReqKind, FuseReqLabels, FuseReqStatus, GaugeId, Gauges, IoType,
    UnsupportedReason,
};
use fuse_channel::pending::{Notifier, PendingRequests};
use fuse_channel::request::{FuseOpCode, FuseOperator, FuseRequest, RequestHeader};
use fuse_channel::response::{FuseResponse, FuseTask};

const ERRNO: i32 = libc::EBADF;

fn make_request(opcode: FuseOpCode, unique: u64, payload: usize) -> FuseRequest {
    let len = (40 + payload) as u32;
    FuseRequest { unique, opcode, header: Some(RequestHeader { len, nodeid: 1 }), meta: false }
}

fn new_reply(g: &mut Gauges, req: &FuseRequest, with_metrics_ctx: bool) -> FuseResponse {
    let labels =
        FuseReqLabels { opcode: req.opcode, kind: FuseReqKind::Stream, request_bytes: 64 };
    FuseResponse::new_reply(g, req.unique, false, with_metrics_ctx.then_some(labels))
}

#[derive(Debug)]
struct Observed {
    attempts: Vec<IoType>,
    inflight_during: i64,
    dispatch: Vec<IoType>,
    lifecycle: Vec<IoType>,
    result: Result<(), SessionError>,
}

fn stream_inflight(g: &Gauges) -> i64 {
    g.get(GaugeId::FlushInflight) + g.get(GaugeId::FsyncInflight) + g.get(GaugeId::ReleaseInflight)
}

// Dispatches one stream operation. `answers_first` is what the operation itself sends
// before it returns `op_result`.
fn dispatch_and_collect(
    g: &mut Gauges,
    req: &FuseRequest,
    parsed: Result<FuseOperator, FuseError>,
    rep: &mut FuseResponse,
    answers_first: bool,
    op_result: Result<(), FuseError>,
) -> (Observed, Vec<FuseTask>) {
    let mut tasks = vec![];
    let mut seen = Observed {
        attempts: vec![],
        inflight_during: 0,
        dispatch: vec![],
        lifecycle: vec![],
        result: Ok(()),
    };
    let scope = match FuseReceiver::send_stream_dispatch(g, req, parsed, rep) {
        StreamAction::Reject { err, .. } => {
            seen.result = Err(SessionError::Fuse(err));
            return (seen, tasks);
        }
        StreamAction::Call { scope, .. } => {
            seen.attempts.extend(scope.lifecycle);
            seen.inflight_during = stream_inflight(g);
            if answers_first {
                tasks.extend(rep.send_rep(g, Ok(vec![])));
            }
            tasks.extend(FuseReceiver::finish_stream(g, rep, op_result));
            scope
        }
        StreamAction::Unsupported { task, scope } => {
            tasks.extend(task);
            scope
        }
    };
    let end = FuseReceiver::conclude_stream(g, scope, Ok(()));
    seen.dispatch.extend(end.dispatch);
    seen.lifecycle.extend(end.lifecycle);
    seen.result = end.result;
    (seen, tasks)
}

fn enosys() -> Result<(), FuseError> {
    Err(FuseError { errno: libc::ENOSYS })
}

// One operation that the file system does not implement.
fn dispatch_one(with_metrics_ctx: bool, req: FuseRequest, op: FuseOperator) -> Observed {
    let mut g = Gauges::new();
    let mut rep = new_reply(&mut g, &req, with_metrics_ctx);
    let (seen, tasks) = dispatch_and_collect(&mut g, &req, Ok(op), &mut rep, false, enosys());
    assert_eq!(tasks.len(), 1);
    assert_eq!(stream_inflight(&g), 0);
    seen
}

fn flush_request(unique: u64) -> FuseRequest {
    make_request(FuseOpCode::Flush, unique, 24)
}
fn fsync_request(unique: u64) -> FuseRequest {
    make_request(FuseOpCode::Fsync, unique, 16)
}
fn release_request(unique: u64) -> FuseRequest {
    make_request(FuseOpCode::Release, unique, 24)
}
fn read_request(unique: u64) -> FuseRequest {
    make_request(FuseOpCode::Read, unique, 40)
}
fn write_request(unique: u64) -> FuseRequest {
    make_request(FuseOpCode::Write, unique, 40)
}

#[test]
fn flush_records_lifecycle_attempt_and_duration() {
    let seen = dispatch_one(true, flush_request(7001), FuseOperator::Flush);
    assert_eq!(
        seen.attempts,
        vec![IoType::Flush],
        "flush counts a lifecycle attempt (counted before the match)"
    );
    assert_eq!(seen.inflight_during, 1);
    assert_eq!(
        seen.lifecycle,
        vec![IoType::Flush],
        "flush lifecycle duration observed (RAII timer covers the error reply)"
    );
    assert!(seen.dispatch.is_empty());
}

#[test]
fn fsync_records_lifecycle_fsync() {
    let seen = dispatch_one(true, fsync_request(7002), FuseOperator::FSync);
    assert_eq!(seen.attempts, vec![IoType::Fsync], "fsync lands under io_type=fsync");
}

#[test]
fn release_records_lifecycle_release() {
    let seen = dispatch_one(true, release_request(7003), FuseOperator::Release);
    assert_eq!(seen.attempts, vec![IoType::Release], "release counted at send_stream");
}

#[test]
fn read_write_record_dispatch() {
    let read = dispatch_one(true, read_request(7004), FuseOperator::Read);
    let write = dispatch_one(true, write_request(7005), FuseOperator::Write);
    assert_eq!(
        read.dispatch,
        vec![IoType::Read],
        "read records io_dispatch_duration_us{{read}}"
    );
    assert_eq!(
        write.dispatch,
        vec![IoType::Write],
        "write records io_dispatch_duration_us{{write}}"
    );
    assert!(read.lifecycle.is_empty() && write.lifecycle.is_empty());
}

#[test]
fn disabled_send_stream_runs_clean_for_all_families() {
    for (req, op) in [
        (flush_request(7101), FuseOperator::Flush),
        (fsync_request(7102), FuseOperator::FSync),
        (release_request(7103), FuseOperator::Release),
        (read_request(7104), FuseOperator::Read),
        (write_request(7105), FuseOperator::Write),
    ] {
        let seen = dispatch_one(false, req, op);
        assert!(seen.attempts.is_empty());
        assert!(seen.dispatch.is_empty() && seen.lifecycle.is_empty());
        assert_eq!(seen.inflight_during, 0);
    }
}

#[test]
fn malformed_stream_request_finishes_early_without_dispatch_or_lifecycle() {
    let mut g = Gauges::new();
    let malformed = make_request(FuseOpCode::Read, 7201, 0);
    let mut rep = new_reply(&mut g, &malformed, true);
    assert_eq!(g.get(GaugeId::ActiveStream), 1, "active guard live before dispatch");
    let err = FuseError { errno: libc::EINVAL };
    let action = FuseReceiver::send_stream_dispatch(&mut g, &malformed, Err(err), &mut rep);
    match action {
        StreamAction::Reject { err: got, early } => {
            assert_eq!(got, err, "malformed stream request returns the parse Err");
            let early =
                early.expect("parse failure records decode_errors_total{{phase=parse}}");
            assert_eq!(early.reason, "other");
            assert_eq!(early.errno, libc::EINVAL);
            assert_eq!(early.labels.opcode, FuseOpCode::Read);
        }
        _ => panic!("a request that does not parse is not dispatched"),
    }
    assert_eq!(
        g.get(GaugeId::ActiveStream),
        0,
        "parse failure finishes the ctx early and drops the active guard"
    );
    assert!(rep.is_finished());
    // Nothing that is sent after that goes out.
    assert!(rep.send_rep(&mut g, Ok(vec![])).is_none());
}

fn assert_single_error_reply(tasks: &[FuseTask]) {
    assert_eq!(tasks.len(), 1, "pre-dispatch error enqueues exactly one error reply");
    match &tasks[0] {
        FuseTask::RequestReply { status, errno, data, .. } => {
            assert_eq!(*status, FuseReqStatus::Error, "error frame, not success");
            assert_eq!(*errno, ERRNO, "error reply carries the pre-dispatch errno");
            assert_eq!(data.header.error, -ERRNO);
        }
        FuseTask::NotifyReply { .. } => panic!("expected RequestReply, got NotifyReply"),
        FuseTask::Reply(_) => panic!("expected RequestReply, got legacy Reply"),
    }
}

fn assert_finished_once(observer: &FuseResponse) {
    assert!(observer.is_finished(), "shared slot finished exactly once");
    assert!(
        !observer.holds_active(),
        "active guard was taken (moved onto the reply task), not leaked"
    );
}

fn pre_dispatch_error(req: FuseRequest, op: FuseOperator) {
    let mut g = Gauges::new();
    let mut rep = new_reply(&mut g, &req, true);
    let failed = Err(FuseError { errno: ERRNO });
    let (seen, tasks) = dispatch_and_collect(&mut g, &req, Ok(op), &mut rep, false, failed);
    assert!(
        seen.result.is_ok(),
        "pre-dispatch error is delivered as a reply frame; dispatch returns Ok"
    );
    assert_single_error_reply(&tasks);
    assert_finished_once(&rep);
}

#[test]
fn read_pre_dispatch_error_replies_once() {
    pre_dispatch_error(read_request(9001), FuseOperator::Read);
}

#[test]
fn write_pre_dispatch_error_replies_once() {
    pre_dispatch_error(write_request(9002), FuseOperator::Write);
}

#[test]
fn flush_pre_dispatch_error_replies_once() {
    pre_dispatch_error(flush_request(9003), FuseOperator::Flush);
}

#[test]
fn release_pre_dispatch_error_replies_once() {
    pre_dispatch_error(release_request(9004), FuseOperator::Release);
}

#[test]
fn fsync_pre_dispatch_error_replies_once() {
    pre_dispatch_error(fsync_request(9005), FuseOperator::FSync);
}

#[test]
fn disabled_pre_dispatch_error_replies_once() {
    let mut g = Gauges::new();
    let req = read_request(9006);
    let mut rep = new_reply(&mut g, &req, false);
    let failed = Err(FuseError { errno: ERRNO });
    let (seen, tasks) =
        dispatch_and_collect(&mut g, &req, Ok(FuseOperator::Read), &mut rep, false, failed);
    assert!(seen.result.is_ok(), "disabled path also delivers the error as a reply");
    assert_eq!(tasks.len(), 1, "exactly one error reply on the disabled path");
    match &tasks[0] {
        FuseTask::Reply(d) => assert_eq!(
            d.header.error, -ERRNO,
            "disabled path propagates the pre-dispatch errno on the wire"
        ),
        FuseTask::RequestReply { .. } => {
            panic!("disabled path must use the legacy Reply variant, got RequestReply")
        }
        FuseTask::NotifyReply { .. } => {
            panic!("disabled path must use the legacy Reply variant, got NotifyReply")
        }
    }
}

#[test]
fn err_rep_fallback_after_a_reply_is_noop() {
    let mut g = Gauges::new();
    let req = read_request(9007);
    let mut rep = new_reply(&mut g, &req, true);
    let failed = Err(FuseError { errno: ERRNO });
    let (seen, tasks) =
        dispatch_and_collect(&mut g, &req, Ok(FuseOperator::Read), &mut rep, true, failed);
    assert!(
        seen.result.is_ok(),
        "reply-then-error: the op already answered; dispatch returns Ok"
    );
    assert_eq!(
        tasks.len(),
        1,
        "reply-then-error enqueues exactly one reply; the err_rep fallback is a no-op"
    );
    assert!(
        matches!(tasks[0], FuseTask::RequestReply { status: FuseReqStatus::Success, .. }),
        "the single reply is the op's own success reply"
    );
    assert_finished_once(&rep);
}

#[test]
fn metadata_operators_are_not_served_as_stream() {
    let mut g = Gauges::new();
    let req = read_request(9101);
    let mut rep = new_reply(&mut g, &req, true);
    let (seen, tasks) =
        dispatch_and_collect(&mut g, &req, Ok(FuseOperator::Lookup), &mut rep, false, Ok(()));
    assert!(seen.result.is_ok());
    // The scope follows the opcode of the request.
    assert_eq!(seen.dispatch, vec![IoType::Read]);
    match &tasks[..] {
        [FuseTask::RequestReply { status, errno, unsupported_reason, .. }] => {
            assert_eq!(*status, FuseReqStatus::Unsupported);
            assert_eq!(*errno, libc::ENOSYS);
            assert_eq!(*unsupported_reason, Some(UnsupportedReason::UnimplementedOpcode));
        }
        _ => panic!("one unsupported reply"),
    }
}

#[test]
fn send_stream_makes_the_reply_first() {
    let mut g = Gauges::new();
    let rx = FuseReceiver::new(64, true, false, true, false);
    let req = flush_request(9102);
    let (rep, action) = rx.send_stream(&mut g, &req, Ok(FuseOperator::Flush));
    assert!(rep.is_metered() && rep.is_debug() && !rep.is_finished());
    assert_eq!(g.get(GaugeId::ActiveStream), 1);
    assert_eq!(g.get(GaugeId::FlushInflight), 1);
    match action {
        StreamAction::Call { operator, scope } => {
            assert_eq!(operator, FuseOperator::Flush);
            let end = FuseReceiver::conclude_stream(
                &mut g,
                scope,
                Err(IoError::ChannelClosed),
            );
            assert_eq!(end.result, Err(SessionError::Io(IoError::ChannelClosed)));
        }
        _ => panic!("a flush is served"),
    }
    let (rep, action) = rx.send_stream(&mut g, &req, Err(FuseError { errno: libc::EINVAL }));
    assert!(rep.is_finished());
    assert!(matches!(action, StreamAction::Reject { .. }));
    assert_eq!(g.get(GaugeId::FlushInflight), 0);
}

#[test]
fn a_successful_operation_is_not_answered_again() {
    let mut g = Gauges::new();
    let req = write_request(9103);
    let mut rep = new_reply(&mut g, &req, true);
    let (seen, tasks) =
        dispatch_and_collect(&mut g, &req, Ok(FuseOperator::Write), &mut rep, true, Ok(()));
    assert!(seen.result.is_ok());
    assert_eq!(tasks.len(), 1);
}

const ALL_GAUGES: [GaugeId; 8] = [
    GaugeId::ActiveMetadata,
    GaugeId::ActiveStream,
    GaugeId::ReplyQueueDepth,
    GaugeId::MetaTaskInflight,
    GaugeId::SetlkwInflight,
    GaugeId::FlushInflight,
    GaugeId::FsyncInflight,
    GaugeId::ReleaseInflight,
];

fn levels(g: &Gauges) -> [i64; 8] {
    ALL_GAUGES.map(|id| g.get(id))
}

fn deliver(g: &mut Gauges, task: FuseTask) {
    let (sender, _) = FuseSender::new((), (), false, false, true);
    let (_, delivery) = sender.start(g, task);
    let report = sender.finish(&delivery, Ok(()));
    settle(g, delivery);
    assert!(report.request.is_some() && report.progress);
}

#[test]
fn a_failed_stream_request_gives_every_unit_back() {
    for (req, op) in [
        (flush_request(9201), FuseOperator::Flush),
        (fsync_request(9202), FuseOperator::FSync),
        (release_request(9203), FuseOperator::Release),
        (read_request(9204), FuseOperator::Read),
    ] {
        let mut g = Gauges::new();
        let mut rep = new_reply(&mut g, &req, true);
        let (_, tasks) = dispatch_and_collect(&mut g, &req, Ok(op), &mut rep, false, enosys());
        assert_eq!(g.get(GaugeId::ReplyQueueDepth), 1);
        for task in tasks {
            deliver(&mut g, task);
        }
        assert_eq!(levels(&g), [0; 8]);
    }
}

#[test]
fn an_answered_stream_request_gives_every_unit_back() {
    for returned in [Ok(()), enosys()] {
        let mut g = Gauges::new();
        let req = flush_request(9206);
        let mut rep = new_reply(&mut g, &req, true);
        let (_, tasks) =
            dispatch_and_collect(&mut g, &req, Ok(FuseOperator::Flush), &mut rep, true, returned);
        assert_eq!(tasks.len(), 1);
        for task in tasks {
            deliver(&mut g, task);
        }
        assert_eq!(levels(&g), [0; 8]);
    }
    // An operation may answer after its dispatch was concluded.
    let mut g = Gauges::new();
    let req = write_request(9207);
    let mut rep = new_reply(&mut g, &req, true);
    let (_, tasks) =
        dispatch_and_collect(&mut g, &req, Ok(FuseOperator::Write), &mut rep, false, Ok(()));
    assert!(tasks.is_empty());
    let task = rep.send_rep(&mut g, Ok(vec![])).expect("the answer");
    deliver(&mut g, task);
    assert_eq!(levels(&g), [0; 8]);
}

#[test]
fn an_abandoned_request_gives_every_unit_back() {
    // A stream operation that succeeds without an answer.
    let mut g = Gauges::new();
    let req = release_request(9209);
    let mut rep = new_reply(&mut g, &req, true);
    let (_, tasks) =
        dispatch_and_collect(&mut g, &req, Ok(FuseOperator::Release), &mut rep, false, Ok(()));
    assert!(tasks.is_empty());
    assert_eq!(levels(&g), [0, 1, 0, 0, 0, 0, 0, 0]);
    rep.abandon(&mut g);
    assert_eq!(levels(&g), [0; 8]);
    assert_eq!(rep.metrics_op_status(), None);

    // A metadata task that is dropped before it was polled.
    let rx = FuseReceiver::new(64, false, false, true, false);
    let req = make_request(FuseOpCode::Lookup, 9210, 8);
    let (mut reply, task) = rx.submit_meta(&mut g, &req);
    assert_eq!(levels(&g), [1, 0, 0, 1, 0, 0, 0, 0]);
    task.end(&mut g);
    reply.abandon(&mut g);
    assert_eq!(levels(&g), [0; 8]);

    // A handle that was answered holds nothing any more.
    let mut rep = new_reply(&mut g, &req, true);
    let task = rep.send_rep(&mut g, Ok(vec![])).expect("the answer");
    rep.abandon(&mut g);
    assert_eq!(g.get(GaugeId::ActiveStream), 1);
    deliver(&mut g, task);
    assert_eq!(levels(&g), [0; 8]);
}

#[test]
fn metrics_do_not_change_the_frame() {
    let mut frames = vec![];
    for metered in [true, false] {
        let mut g = Gauges::new();
        let req = read_request(9208);
        let mut rep = new_reply(&mut g, &req, metered);
        let (_, tasks) =
            dispatch_and_collect(&mut g, &req, Ok(FuseOperator::Lookup), &mut rep, false, Ok(()));
        for task in tasks {
            let (sender, _) = FuseSender::new((), (), false, false, metered);
            let (data, delivery) = sender.start(&mut g, task);
            settle(&mut g, delivery);
            frames.push((data.header, data.body));
        }
    }
    assert_eq!(frames.len(), 2);
    assert_eq!(frames[0], frames[1]);
}

#[test]
fn an_interrupted_lock_request_gives_every_unit_back() {
    let mut g = Gauges::new();
    let mut pending = PendingRequests::new();
    let rx = FuseReceiver::new(64, false, false, true, false);
    let req = make_request(FuseOpCode::SetLkW, 9205, 48);
    let labels = rx.maybe_req_labels(&req);
    let mut reply = rx.new_reply(&mut g, req.unique, labels);
    let notifier = Notifier { id: 1, waker: () };
    let plan =
        FuseReceiver::dispatch_meta_interrupt(&mut pending, &mut g, &req, notifier, &reply);
    let InterruptPlan::Guarded { guard, scope } = plan else {
        panic!("SETLKW is interruptible");
    };
    assert_eq!(levels(&g), [1, 0, 0, 0, 1, 0, 0, 0]);
    let outcome = InterruptOutcome::Notified;
    let task =
        FuseReceiver::finish_interrupt(&mut pending, &mut g, guard, &mut reply, outcome);
    // The request is in flight until its answer was queued.
    assert_eq!(levels(&g), [1, 0, 1, 0, 1, 0, 0, 0]);
    let (wait_sample, scope) = scope.observe();
    assert!(wait_sample);
    assert_eq!(g.get(GaugeId::SetlkwInflight), 1);
    FuseReceiver::conclude_interrupt(&mut g, scope);
    deliver(&mut g, task.expect("an answer"));
    assert_eq!(levels(&g), [0; 8]);
}

#[test]
fn guards_of_different_gauges_can_be_released_in_any_order() {
    let mut g = Gauges::new();
    let a = ActiveGuard::new(&mut g, GaugeId::FlushInflight);
    let b = ActiveGuard::new(&mut g, GaugeId::FsyncInflight);
    a.release(&mut g);
    assert_eq!(levels(&g), [0, 0, 0, 0, 0, 0, 1, 0]);
    b.release(&mut g);
    assert_eq!(levels(&g), [0; 8]);
}
