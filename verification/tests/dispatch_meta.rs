// A metadata dispatch from the parsed request to the concluded one: the route, the
// file system's answer, the queue, and the operation sample that is read back.
use fuse_channel::errno::{FuseError, IoError, SessionError};
use fuse_channel::fuse_receiver::{
    FuseReceiver, InterruptOutcome, InterruptPlan, MetaAction, MetaRoute, OperationSample,
    ReplyForm,
};
use fuse_channel::metrics::{
    FuseReqKind, FuseReqLabels, FuseReqStatus, GaugeId, Gauges, UnsupportedReason,
};
use fuse_channel::pending::{Notifier, PendingRequests};
use fuse_channel::request::{FuseOpCode, FuseOperator, FuseRequest, RequestHeader};
use fuse_channel::response::{finish_enqueue_failure, EnqueueFailure, FuseResponse, FuseTask};
use libc::{EINTR, EINVAL, ENOENT, ENOSYS};

fn make_request(opcode: FuseOpCode, unique: u64, nodeid: u64, payload: usize) -> FuseRequest {
    let len = (40 + payload) as u32;
    FuseRequest { unique, opcode, header: Some(RequestHeader { len, nodeid }), meta: true }
}

fn metrics_reply(g: &mut Gauges, unique: u64, opcode: FuseOpCode) -> FuseResponse {
    let labels = FuseReqLabels { opcode, kind: FuseReqKind::Metadata, request_bytes: 64 };
    FuseResponse::new_reply(g, unique, false, Some(labels))
}

// What the test file system says to each operation: attributes and statistics can be
// had, directories are synced and the session is destroyed without effect, names are
// not found, and the rest is not implemented.
fn test_fs(op: FuseOperator) -> Result<Vec<u8>, FuseError> {
    match op {
        FuseOperator::GetAttr | FuseOperator::StatFs => Ok(vec![0; 8]),
        FuseOperator::FSyncDir | FuseOperator::Destroy => Ok(vec![]),
        FuseOperator::Lookup => Err(FuseError { errno: ENOENT }),
        _ => Err(FuseError { errno: ENOSYS }),
    }
}

struct Run {
    tasks: Vec<FuseTask>,
    failures: Vec<EnqueueFailure>,
    samples: Vec<OperationSample>,
    called: Vec<FuseOperator>,
    woken: Vec<u64>,
    decode_errors: Vec<&'static str>,
    result: Result<(), SessionError>,
}

fn dispatch_meta(
    g: &mut Gauges,
    pending: &PendingRequests<()>,
    req: &FuseRequest,
    parsed: Result<FuseOperator, FuseError>,
    reply: &mut FuseResponse,
    channel_open: bool,
) -> Run {
    let mut run = Run {
        tasks: vec![],
        failures: vec![],
        samples: vec![],
        called: vec![],
        woken: vec![],
        decode_errors: vec![],
        result: Ok(()),
    };
    let task = match FuseReceiver::dispatch_meta(pending, g, req, parsed, reply) {
        MetaAction::Reject { err, early } => {
            if let Some(early) = early {
                assert_eq!(early.errno, err.errno);
                run.decode_errors.push(early.reason);
            }
            run.result = Err(SessionError::Fuse(err));
            return run;
        }
        MetaAction::Call { operator, form } => {
            run.called.push(operator);
            FuseReceiver::complete_meta(g, reply, form, test_fs(operator)).task
        }
        MetaAction::Notify(notifier) => {
            run.woken.push(notifier.id);
            FuseReceiver::complete_meta(g, reply, ReplyForm::NoReply, Ok(vec![])).task
        }
        MetaAction::Send(task) => task,
    };
    let sent = match task {
        Some(task) if channel_open => {
            run.tasks.push(task);
            Ok(())
        }
        Some(task) => {
            run.failures.extend(finish_enqueue_failure(g, task));
            Err(IoError::ChannelClosed)
        }
        None => Ok(()),
    };
    let (sample, result) = FuseReceiver::conclude_meta(req, reply, sent);
    run.samples.extend(sample);
    run.result = result;
    run
}

fn sample(opcode: FuseOpCode, status: FuseReqStatus) -> OperationSample {
    OperationSample { opcode, status, missing_status: false }
}

#[test]
fn getattr_success_records_operation_success() {
    let mut g = Gauges::new();
    let pending = PendingRequests::new();
    let mut reply = metrics_reply(&mut g, 1001, FuseOpCode::GetAttr);
    let req = make_request(FuseOpCode::GetAttr, 1001, 1, 0);
    let run = dispatch_meta(&mut g, &pending, &req, Ok(FuseOperator::GetAttr), &mut reply, true);
    assert!(run.result.is_ok());
    assert_eq!(
        run.samples,
        vec![sample(FuseOpCode::GetAttr, FuseReqStatus::Success)],
        "GetAttr Ok -> operation_duration_us{{status=success}}"
    );
}

#[test]
fn lookup_error_records_operation_error() {
    let mut g = Gauges::new();
    let pending = PendingRequests::new();
    let mut reply = metrics_reply(&mut g, 1002, FuseOpCode::Lookup);
    let req = make_request(FuseOpCode::Lookup, 1002, 1, "missing".len() + 1);
    let run = dispatch_meta(&mut g, &pending, &req, Ok(FuseOperator::Lookup), &mut reply, true);
    assert_eq!(
        run.samples,
        vec![sample(FuseOpCode::Lookup, FuseReqStatus::Error)],
        "Lookup ENOENT -> operation_duration_us{{status=error}} (from op_status)"
    );
}

#[test]
fn forget_no_reply_records_operation_and_enqueues_nothing() {
    let mut g = Gauges::new();
    let pending = PendingRequests::new();
    let mut reply = metrics_reply(&mut g, 1003, FuseOpCode::Forget);
    let req = make_request(FuseOpCode::Forget, 1003, 2, 8);
    let run = dispatch_meta(&mut g, &pending, &req, Ok(FuseOperator::Forget), &mut reply, true);
    assert!(run.result.is_ok());
    assert_eq!(
        run.samples,
        vec![sample(FuseOpCode::Forget, FuseReqStatus::Error)],
        "no-reply Forget still records an operation sample, status from finish_no_reply"
    );
    assert!(run.tasks.is_empty(), "Forget is no-reply: no task enqueued");
    assert_eq!(g.get(GaugeId::ActiveMetadata), 0);
}

#[test]
fn interrupt_notifies_pending_request_and_enqueues_nothing() {
    let interrupted_unique = 2001;
    let mut g = Gauges::new();
    let mut pending = PendingRequests::new();
    pending.insert(interrupted_unique, Notifier { id: 42, waker: () });
    let mut reply = metrics_reply(&mut g, 1006, FuseOpCode::Interrupt);
    let req = make_request(FuseOpCode::Interrupt, 1006, 0, 8);
    let parsed = Ok(FuseOperator::Interrupt { unique: interrupted_unique });
    let run = dispatch_meta(&mut g, &pending, &req, parsed, &mut reply, true);
    assert!(run.result.is_ok());
    assert_eq!(run.woken, vec![42], "pending request is notified");
    assert!(run.tasks.is_empty(), "Interrupt is no-reply: no task enqueued");
    assert!(
        run.called.is_empty(),
        "pending request notification is the primary interrupt path"
    );
}

#[test]
fn late_interrupt_enqueues_nothing() {
    let mut g = Gauges::new();
    let pending = PendingRequests::new();
    let mut reply = metrics_reply(&mut g, 1007, FuseOpCode::Interrupt);
    let req = make_request(FuseOpCode::Interrupt, 1007, 0, 8);
    let parsed = Ok(FuseOperator::Interrupt { unique: 2002 });
    let run = dispatch_meta(&mut g, &pending, &req, parsed, &mut reply, true);
    assert!(run.result.is_ok());
    assert!(run.tasks.is_empty(), "late Interrupt is no-reply: no task enqueued");
    assert_eq!(
        run.called,
        vec![FuseOperator::Interrupt { unique: 2002 }],
        "late Interrupt invokes the best-effort filesystem fallback"
    );
}

#[test]
fn enqueue_failure_keeps_operation_success() {
    let mut g = Gauges::new();
    let pending = PendingRequests::new();
    let mut reply = metrics_reply(&mut g, 1004, FuseOpCode::StatFs);
    let req = make_request(FuseOpCode::StatFs, 1004, 1, 0);
    let run = dispatch_meta(&mut g, &pending, &req, Ok(FuseOperator::StatFs), &mut reply, false);
    assert_eq!(run.result, Err(SessionError::Io(IoError::ChannelClosed)));
    assert_eq!(
        run.samples,
        vec![sample(FuseOpCode::StatFs, FuseReqStatus::Success)],
        "op succeeded -> operation status=success even when delivery fails"
    );
    assert_eq!(run.failures.len(), 1, "enqueue failure is recorded once");
    assert_eq!(
        run.failures[0].request_status,
        FuseReqStatus::Error,
        "delivery failed -> request_duration_us status=error"
    );
    assert_eq!(
        (run.failures[0].labels.opcode, run.failures[0].reason),
        (FuseOpCode::StatFs, "channel_closed"),
        "enqueue failure records reply_enqueue_errors_total reason=channel_closed"
    );
    assert_eq!(run.failures[0].op_status, FuseReqStatus::Success);
    assert_eq!(g.get(GaugeId::ActiveMetadata), 0);
    assert_eq!(g.get(GaugeId::ReplyQueueDepth), 0);
}

#[test]
fn parse_failure_records_no_operation_sample() {
    let mut g = Gauges::new();
    let pending = PendingRequests::new();
    let mut reply = metrics_reply(&mut g, 1005, FuseOpCode::Access);
    let truncated = make_request(FuseOpCode::Access, 1005, 1, 0);
    let parsed = Err(FuseError { errno: EINVAL });
    let run = dispatch_meta(&mut g, &pending, &truncated, parsed, &mut reply, true);
    assert!(run.result.is_err());
    assert!(run.samples.is_empty());
    assert_eq!(run.decode_errors, vec!["other"]);
    assert!(run.tasks.is_empty());
    assert!(run.called.is_empty());
    assert!(reply.is_finished());
    assert_eq!(reply.metrics_op_status(), None);
    assert_eq!(g.get(GaugeId::ActiveMetadata), 0);
}

#[test]
fn interrupted_blocking_setlkw_records_wait_sample() {
    let mut g = Gauges::new();
    let mut pending = PendingRequests::new();
    let mut reply = metrics_reply(&mut g, 2001, FuseOpCode::SetLkW);
    let req = make_request(FuseOpCode::SetLkW, 2001, 1, 48);
    let notifier = Notifier { id: 7, waker: () };
    let plan =
        FuseReceiver::dispatch_meta_interrupt(&mut pending, &mut g, &req, notifier, &reply);
    let (guard, scope) = match plan {
        InterruptPlan::Guarded { guard, scope } => (guard, scope),
        InterruptPlan::Direct => panic!("SETLKW is interruptible"),
    };
    assert_eq!(g.get(GaugeId::SetlkwInflight), 1);
    // The dispatch reaches set_lkw, which blocks.
    let action = FuseReceiver::dispatch_meta(
        &pending,
        &mut g,
        &req,
        Ok(FuseOperator::SetLkW),
        &mut reply,
    );
    assert!(
        matches!(
            action,
            MetaAction::Call { operator: FuseOperator::SetLkW, form: ReplyForm::Rep }
        ),
        "set_lkw was polled (the dispatch branch started)"
    );
    assert!(
        pending.get(2001).is_some(),
        "pending_requests entry exists once set_lkw is polled"
    );

    let task = FuseReceiver::finish_interrupt(
        &mut pending,
        &mut g,
        guard,
        &mut reply,
        InterruptOutcome::Notified,
    );
    let task = task.expect("an interrupt reply task");
    let mut queue = vec![];
    queue.push(task);
    let (sample, res) = FuseReceiver::conclude_interrupted(Ok(()));
    assert!(res.is_ok(), "interrupt reply enqueued successfully");
    assert_eq!(sample, None, "interrupted SETLKW is left out of operation_duration_us");
    match queue.pop().expect("an interrupt reply task") {
        FuseTask::RequestReply { status, data, .. } => {
            assert_eq!(
                status,
                FuseReqStatus::Interrupted,
                "interrupt-notify reply is status=Interrupted"
            );
            assert_eq!(data.header.error, -EINTR);
        }
        FuseTask::NotifyReply { .. } => panic!("expected RequestReply, got NotifyReply"),
        FuseTask::Reply(_) => panic!("expected RequestReply, got legacy Reply"),
    }
    let (wait_sample, scope) = scope.observe();
    assert!(
        wait_sample,
        "interrupted SETLKW still records a setlkw_wait_duration_us sample"
    );
    assert_eq!(g.get(GaugeId::SetlkwInflight), 1);
    FuseReceiver::conclude_interrupt(&mut g, scope);
    assert!(
        pending.get(2001).is_none(),
        "interrupt branch removed the pending_requests entry"
    );
    assert_eq!(g.get(GaugeId::SetlkwInflight), 0);
}

#[test]
fn an_interruption_that_cannot_be_queued_fails_the_dispatch() {
    let (sample, res) = FuseReceiver::conclude_interrupted(Err(IoError::ChannelClosed));
    assert_eq!(sample, None);
    assert_eq!(res, Err(SessionError::Io(IoError::ChannelClosed)));
}

#[test]
fn metrics_do_not_change_the_dispatch() {
    for (opcode, op) in [
        (FuseOpCode::Lookup, FuseOperator::Lookup),
        (FuseOpCode::Forget, FuseOperator::Forget),
        (FuseOpCode::BMap, FuseOperator::Notimplemented),
    ] {
        let req = make_request(opcode, 2101, 1, 8);
        let pending = PendingRequests::new();
        let mut g = Gauges::new();
        let mut metered = metrics_reply(&mut g, 2101, opcode);
        let mut plain = FuseResponse::new_reply(&mut g, 2101, false, None);
        let a = dispatch_meta(&mut g, &pending, &req, Ok(op), &mut metered, true);
        let b = dispatch_meta(&mut g, &pending, &req, Ok(op), &mut plain, true);
        assert_eq!(a.called, b.called);
        assert_eq!(a.tasks.len(), b.tasks.len());
        for (x, y) in a.tasks.iter().zip(b.tasks.iter()) {
            match (x, y) {
                (FuseTask::RequestReply { data, .. }, FuseTask::Reply(other)) => {
                    assert_eq!(data.header, other.header);
                    assert_eq!(data.body, other.body);
                }
                _ => panic!("a metered reply and a plain one"),
            }
        }
    }
}

#[test]
fn aborted_blocking_setlkw_removes_pending_request() {
    let mut g = Gauges::new();
    let mut pending = PendingRequests::new();
    let mut reply = metrics_reply(&mut g, 2003, FuseOpCode::SetLkW);
    let req = make_request(FuseOpCode::SetLkW, 2003, 1, 48);
    let plan = FuseReceiver::dispatch_meta_interrupt(
        &mut pending,
        &mut g,
        &req,
        Notifier { id: 7, waker: () },
        &reply,
    );
    assert!(
        pending.get(2003).is_some(),
        "SETLKW is registered while its dispatch is pending"
    );
    match plan {
        InterruptPlan::Guarded { guard, scope } => {
            let task = FuseReceiver::finish_interrupt(
                &mut pending,
                &mut g,
                guard,
                &mut reply,
                InterruptOutcome::Aborted,
            );
            assert!(task.is_none());
            let (wait_sample, scope) = scope.observe();
            assert!(wait_sample);
            FuseReceiver::conclude_interrupt(&mut g, scope);
        }
        InterruptPlan::Direct => panic!("SETLKW is interruptible"),
    }
    assert!(
        pending.get(2003).is_none(),
        "aborting SETLKW removes its pending_requests entry"
    );
    assert_eq!(g.get(GaugeId::SetlkwInflight), 0);
    assert!(!reply.is_finished());
    // The aborted request is still owed a reply; dropping its handle ends it.
    assert_eq!(g.get(GaugeId::ActiveMetadata), 1);
    reply.abandon(&mut g);
    assert_eq!(g.get(GaugeId::ActiveMetadata), 0);
    assert!(!reply.holds_active());
    reply.abandon(&mut g);
    assert_eq!(g.get(GaugeId::ActiveMetadata), 0);
}

#[test]
fn malformed_setlkw_records_wait_sample_without_set_lkw() {
    let mut g = Gauges::new();
    let mut pending = PendingRequests::new();
    let mut reply = metrics_reply(&mut g, 2002, FuseOpCode::SetLkW);
    let malformed = make_request(FuseOpCode::SetLkW, 2002, 1, 0);
    let plan = FuseReceiver::dispatch_meta_interrupt(
        &mut pending,
        &mut g,
        &malformed,
        Notifier { id: 7, waker: () },
        &reply,
    );
    let (guard, scope) = match plan {
        InterruptPlan::Guarded { guard, scope } => (guard, scope),
        InterruptPlan::Direct => panic!("SETLKW is interruptible"),
    };
    let parsed = Err(FuseError { errno: EINVAL });
    let run = dispatch_meta(&mut g, &pending, &malformed, parsed, &mut reply, true);
    let task = FuseReceiver::finish_interrupt(
        &mut pending,
        &mut g,
        guard,
        &mut reply,
        InterruptOutcome::Completed,
    );
    assert!(run.result.is_err(), "malformed SETLKW returns the parse Err");
    assert!(
        run.called.is_empty(),
        "set_lkw must NOT be called for a malformed SETLKW (parse failed first)"
    );
    let (wait_sample, scope) = scope.observe();
    assert!(
        wait_sample,
        "malformed SETLKW still records a setlkw_wait_duration_us sample"
    );
    FuseReceiver::conclude_interrupt(&mut g, scope);
    assert_eq!(g.get(GaugeId::SetlkwInflight), 0);
    assert!(task.is_none());
    assert!(
        pending.get(2002).is_none(),
        "malformed SETLKW dispatch branch removed its pending_requests entry"
    );
}

// The (unsupported reason, errno) of the reply that a dispatch queued.
fn dispatch_reason_errno(
    req: &FuseRequest,
    op: FuseOperator,
) -> (Option<UnsupportedReason>, i32) {
    let mut g = Gauges::new();
    let pending = PendingRequests::new();
    let mut reply = metrics_reply(&mut g, req.unique, req.opcode);
    let mut run = dispatch_meta(&mut g, &pending, req, Ok(op), &mut reply, true);
    match run.tasks.pop().expect("a RequestReply task") {
        FuseTask::RequestReply { unsupported_reason, errno, .. } => (unsupported_reason, errno),
        _ => panic!("expected a RequestReply task"),
    }
}

#[test]
fn rename2_flagless_reaches_dispatch_arm() {
    let req = make_request(FuseOpCode::Rename2, 3001, 1, 16 + b"old\0new\0".len());
    let (reason, _errno) = dispatch_reason_errno(&req, FuseOperator::Rename2);
    assert_eq!(reason, None, "RENAME2 must reach its dispatch arm, not the wildcard");
}

#[test]
fn fsyncdir_reaches_dispatch_arm_and_succeeds() {
    let req = make_request(FuseOpCode::FsyncDir, 3002, 1, 16);
    let (reason, errno) = dispatch_reason_errno(&req, FuseOperator::FSyncDir);
    assert_eq!(reason, None, "FSYNCDIR must reach its dispatch arm");
    assert_eq!(errno, 0, "fsync_dir default is a no-op success");
}

#[test]
fn destroy_reaches_dispatch_arm_and_succeeds() {
    let req = make_request(FuseOpCode::Destroy, 3003, 0, 0);
    let (reason, errno) = dispatch_reason_errno(&req, FuseOperator::Destroy);
    assert_eq!(reason, None, "DESTROY must reach its dispatch arm");
    assert_eq!(errno, 0, "destroy default acks with an empty success reply");
}

#[test]
fn bmap_falls_through_wildcard_as_unimplemented() {
    let req = make_request(FuseOpCode::BMap, 3004, 1, 0);
    let (reason, errno) = dispatch_reason_errno(&req, FuseOperator::Notimplemented);
    assert_eq!(
        reason.map(UnsupportedReason::as_str),
        Some("unimplemented_opcode"),
        "BMAP is intentionally unsupported -> wildcard"
    );
    assert_eq!(errno, libc::ENOSYS);
}

#[test]
fn an_opcode_without_a_name_is_unknown() {
    let req = make_request(FuseOpCode::NotSupported, 3005, 1, 0);
    let (reason, errno) = dispatch_reason_errno(&req, FuseOperator::Notimplemented);
    assert_eq!(reason.map(UnsupportedReason::as_str), Some("unknown_opcode"));
    assert_eq!(errno, libc::ENOSYS);
}

#[test]
fn stream_operators_are_not_served_as_metadata() {
    for op in [
        FuseOperator::Read,
        FuseOperator::Write,
        FuseOperator::Flush,
        FuseOperator::Release,
        FuseOperator::FSync,
    ] {
        assert_eq!(FuseReceiver::route_meta(op), MetaRoute::Unsupported);
    }
    assert_eq!(
        FuseReceiver::route_meta(FuseOperator::ReadDirPlus),
        MetaRoute::Serve(ReplyForm::Buf)
    );
    assert_eq!(
        FuseReceiver::route_meta(FuseOperator::BatchForget),
        MetaRoute::Serve(ReplyForm::NoReply)
    );
    assert_eq!(
        FuseReceiver::route_meta(FuseOperator::SetLkW),
        MetaRoute::Serve(ReplyForm::Rep)
    );
}

#[test]
fn an_unanswered_dispatch_counts_as_error() {
    let mut g = Gauges::new();
    let reply = metrics_reply(&mut g, 4001, FuseOpCode::Open);
    let req = make_request(FuseOpCode::Open, 4001, 1, 8);
    let (got, result) = FuseReceiver::conclude_meta(&req, &reply, Ok(()));
    assert!(result.is_ok());
    assert_eq!(
        got,
        Some(OperationSample {
            opcode: FuseOpCode::Open,
            status: FuseReqStatus::Error,
            missing_status: true,
        })
    );
}

#[test]
fn unmetered_dispatch_records_nothing() {
    let mut g = Gauges::new();
    let mut pending = PendingRequests::new();
    let mut reply = FuseResponse::new_reply(&mut g, 4002, true, None);
    assert!(reply.is_debug());
    let req = make_request(FuseOpCode::SetLkW, 4002, 1, 48);
    let plan = FuseReceiver::dispatch_meta_interrupt(
        &mut pending,
        &mut g,
        &req,
        Notifier { id: 1, waker: () },
        &reply,
    );
    let run = dispatch_meta(&mut g, &pending, &req, Ok(FuseOperator::SetLkW), &mut reply, true);
    assert!(run.samples.is_empty());
    assert!(matches!(run.tasks[0], FuseTask::Reply(_)));
    match plan {
        InterruptPlan::Guarded { guard, scope } => {
            let task = FuseReceiver::finish_interrupt(
                &mut pending,
                &mut g,
                guard,
                &mut reply,
                InterruptOutcome::Completed,
            );
            assert!(task.is_none());
            let (wait_sample, scope) = scope.observe();
            assert!(!wait_sample);
            FuseReceiver::conclude_interrupt(&mut g, scope);
        }
        InterruptPlan::Direct => panic!("SETLKW is interruptible"),
    }
    assert_eq!(g.get(GaugeId::SetlkwInflight), 0);
}

#[test]
fn only_setlkw_is_interruptible() {
    let mut g = Gauges::new();
    let mut pending = PendingRequests::new();
    let reply = metrics_reply(&mut g, 4003, FuseOpCode::SetLk);
    let req = make_request(FuseOpCode::SetLk, 4003, 1, 48);
    let plan = FuseReceiver::dispatch_meta_interrupt(
        &mut pending,
        &mut g,
        &req,
        Notifier { id: 1, waker: () },
        &reply,
    );
    assert!(matches!(plan, InterruptPlan::Direct));
    assert!(pending.get(4003).is_none());
    assert_eq!(g.get(GaugeId::SetlkwInflight), 0);
}
