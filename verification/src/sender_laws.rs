//! What the sender's calls do, stated of the calls.
use vstd::prelude::*;
use crate::errno::{FuseError, IoError};
use crate::fuse_sender::{
    mark_dequeued, settle, Delivery, DrainStep, FuseSender, SendPath, SendPlan, SendReport,
    SpliceProgress, SpliceStep,
};
use crate::gauge_laws::{gave_back, unit_of};
use crate::metrics::{ActiveGuard, FuseReqStatus, GaugeId, Gauges, UnsupportedReason, WriteOutcome};
use crate::reply_laws::{carried, ended_as, number_of, tellable, tells, unanswered};
use crate::response::{FuseResponse, FuseTask, ResponseData};

verus! {

/// A sender is what it was set up as, and reports its liveness at once where metrics
/// are kept.
pub proof fn law_new_sender_is_set_up<T, R>(
    fs: T,
    rt: R,
    debug: bool,
    enable_splice: bool,
    metrics_enabled: bool,
    made: (FuseSender<T, R>, bool),
    sender: FuseSender<T, R>,
    runs_on: &R,
)
    requires
        call_ensures(
            FuseSender::<T, R>::new,
            (fs, rt, debug, enable_splice, metrics_enabled),
            made,
        ),
        call_ensures(FuseSender::<T, R>::rt, (&sender,), runs_on),
    ensures
        made.0.fs == fs,
        made.0.rt == rt,
        *runs_on == sender.rt,
        made.0.debug == debug,
        made.0.splice_enabled == enable_splice,
        made.0.progress == metrics_enabled,
        made.1 == metrics_enabled,
{
}

/// The frame that is handed out for writing is the one in the task, header and body.
pub proof fn law_frame_is_the_tasks<T, R>(
    sender: FuseSender<T, R>,
    gauges: &mut Gauges,
    task: FuseTask,
    out: (ResponseData, Delivery),
)
    requires
        call_ensures(FuseSender::<T, R>::start, (&sender, gauges, task), out),
    ensures
        out.0.header == carried(task).header,
        out.0.body@ == carried(task).body@,
{
}

/// Taking a task off the queue gives back its unit of the queue and no other, and what
/// is remembered of it is what it says.
pub proof fn law_task_is_remembered<T, R>(
    sender: FuseSender<T, R>,
    gauges: &mut Gauges,
    task: FuseTask,
    out: (ResponseData, Delivery),
)
    requires
        call_ensures(FuseSender::<T, R>::start, (&sender, gauges, task), out),
    ensures
        match task {
            FuseTask::RequestReply {
                data,
                labels,
                active,
                status,
                errno,
                unsupported_reason,
                queue_guard,
            } => {
                &&& gave_back(old(gauges)@, final(gauges)@, queue_guard)
                &&& out.1 matches Delivery::Request {
                    unique,
                    labels: labels2,
                    active: active2,
                    status: status2,
                    errno: errno2,
                    unsupported_reason: reason2,
                    response_bytes,
                }
                &&& unique == data.header.unique
                &&& labels2 == labels
                &&& match active {
                    Some(unit) => unit_of(active2, Some(unit@)),
                    None => active2 is None,
                }
                &&& status2 == status
                &&& errno2 == errno
                &&& reason2 == unsupported_reason
                &&& response_bytes == data.header.len
            },
            FuseTask::NotifyReply { data, code, queue_guard } => {
                &&& gave_back(old(gauges)@, final(gauges)@, queue_guard)
                &&& out.1 == (Delivery::Notify { unique: data.header.unique, code })
            },
            FuseTask::Reply(data) => {
                &&& final(gauges)@ == old(gauges)@
                &&& out.1 == (Delivery::Plain { unique: data.header.unique })
            },
        },
{
    old(gauges).lemma_places();
}

/// What reaches the kernel is the operation's result: the frame that the sender takes
/// out of an answer's task tells the number of the request and all that the operation
/// gave, with metrics or without.
pub proof fn law_result_reaches_kernel<T, R>(
    r: &mut FuseResponse,
    gauges: &mut Gauges,
    result: Result<Vec<u8>, FuseError>,
    reason: Option<UnsupportedReason>,
    interrupted: bool,
    task: Option<FuseTask>,
    sender: FuseSender<T, R>,
    gauges2: &mut Gauges,
    out: (ResponseData, Delivery),
)
    requires
        tellable(result),
        unanswered(old(r)@),
        call_ensures(
            FuseResponse::send_rep_tagged,
            (r, gauges, result, reason, interrupted),
            task,
        ),
        task is Some ==> call_ensures(
            FuseSender::<T, R>::start,
            (&sender, gauges2, task->0),
            out,
        ),
    ensures
        task is Some,
        tells(out.0, old(r)@.unique, result),
{
}

/// What is recorded of a metered request is how its operation ended, and a failed
/// transfer makes it an error and changes nothing else.
pub proof fn law_record_tells_operation<T, R>(
    r: &mut FuseResponse,
    gauges: &mut Gauges,
    result: Result<Vec<u8>, FuseError>,
    reason: Option<UnsupportedReason>,
    interrupted: bool,
    task: Option<FuseTask>,
    sender: FuseSender<T, R>,
    gauges2: &mut Gauges,
    out: (ResponseData, Delivery),
    sent: Result<(), IoError>,
    report: SendReport,
)
    requires
        tellable(result),
        unanswered(old(r)@),
        old(r)@.metrics is Some,
        call_ensures(
            FuseResponse::send_rep_tagged,
            (r, gauges, result, reason, interrupted),
            task,
        ),
        task is Some ==> call_ensures(
            FuseSender::<T, R>::start,
            (&sender, gauges2, task->0),
            out,
        ),
        call_ensures(FuseSender::<T, R>::finish, (&sender, &out.1, sent), report),
    ensures
        ({
            &&& report.request matches Some(finish)
            &&& finish.labels == old(r)@.metrics->0.labels
            &&& ended_as(finish.op_status, result is Err, reason, interrupted)
            &&& finish.errno == number_of(result)
            &&& finish.unsupported_reason == reason
            &&& finish.response_bytes == out.0.header.len
            &&& sent is Ok ==> finish.request_status == finish.op_status
            &&& sent is Err ==> finish.request_status == FuseReqStatus::Error
        }),
{
}

/// What is recorded of a delivery: a request or a notification and how its transfer
/// went, a warning exactly for a failure that the kernel did not bring about by
/// forgetting the request, and liveness exactly for a success that is not a plain
/// reply.
pub proof fn law_report_tells_delivery<T, R>(
    sender: FuseSender<T, R>,
    delivery: Delivery,
    sent: Result<(), IoError>,
    report: SendReport,
)
    requires
        call_ensures(FuseSender::<T, R>::finish, (&sender, &delivery, sent), report),
    ensures
        ({
            let (number, plain) = match delivery {
                Delivery::Request { unique, .. } => (unique, false),
                Delivery::Notify { unique, .. } => (unique, false),
                Delivery::Plain { unique } => (unique, true),
            };
            &&& report.warn == if sent is Ok || sent == Err::<(), IoError>(IoError::Os(2)) {
                None
            } else {
                Some(number)
            }
            &&& report.progress <==> sender.progress && sent is Ok && !plain
        }),
        match delivery {
            Delivery::Request {
                labels,
                status,
                errno,
                unsupported_reason,
                response_bytes,
                ..
            } => {
                &&& report.notify is None
                &&& report.request matches Some(finish)
                &&& finish.labels == labels
                &&& finish.op_status == status
                &&& finish.errno == errno
                &&& finish.unsupported_reason == unsupported_reason
                &&& finish.response_bytes == response_bytes
                &&& match sent {
                    Ok(_) => {
                        finish.write == WriteOutcome::Success && finish.request_status == status
                    },
                    Err(IoError::Os(n)) => {
                        &&& finish.write == (WriteOutcome::Failed { errno: Some(n) })
                        &&& finish.request_status == FuseReqStatus::Error
                    },
                    Err(_) => {
                        &&& finish.write == (WriteOutcome::Failed { errno: None })
                        &&& finish.request_status == FuseReqStatus::Error
                    },
                }
            },
            Delivery::Notify { code, .. } => {
                &&& report.request is None
                &&& report.notify matches Some(notify)
                &&& notify.code == code
                &&& notify.success == sent is Ok
            },
            Delivery::Plain { .. } => report.request is None && report.notify is None,
        },
{
}

/// Settling a delivery gives back the request's unit, if it holds one, and nothing
/// else; a task that leaves the queue gives back the queue's.
pub proof fn law_settling_gives_back(
    gauges: &mut Gauges,
    delivery: Delivery,
    gauges2: &mut Gauges,
    queue_guard: Option<ActiveGuard>,
)
    requires
        call_ensures(settle, (gauges, delivery), ()),
        call_ensures(mark_dequeued, (queue_guard, gauges2), ()),
    ensures
        match delivery {
            Delivery::Request { active, .. } => gave_back(
                old(gauges)@,
                final(gauges)@,
                active,
            ),
            _ => final(gauges)@ == old(gauges)@,
        },
        gave_back(old(gauges2)@, final(gauges2)@, queue_guard),
{
    old(gauges).lemma_places();
}

/// From its answer to its settled delivery a metered request moves the gauges by
/// nothing but its own unit, which it gives back.
pub proof fn law_delivered_request_balances<T, R>(
    r: &mut FuseResponse,
    gauges: &mut Gauges,
    result: Result<Vec<u8>, FuseError>,
    task: Option<FuseTask>,
    sender: FuseSender<T, R>,
    gauges2: &mut Gauges,
    out: (ResponseData, Delivery),
    gauges3: &mut Gauges,
    unit: GaugeId,
)
    requires
        tellable(result),
        unanswered(old(r)@),
        old(r)@.metrics is Some,
        old(r)@.metrics->0.active == Some(unit),
        call_ensures(FuseResponse::send_rep, (r, gauges, result), task),
        *old(gauges2) == *final(gauges),
        task is Some ==> call_ensures(
            FuseSender::<T, R>::start,
            (&sender, gauges2, task->0),
            out,
        ),
        *old(gauges3) == *final(gauges2),
        call_ensures(settle, (gauges3, out.1), ()),
    ensures
        crate::gauge_laws::went_down(old(gauges)@, final(gauges3)@, unit),
{
    old(gauges).lemma_places();
}

/// A reply is spliced exactly where there is a pipe and the frame is large, and it is
/// logged exactly where replies are.
pub proof fn law_large_replies_are_spliced<T, R>(
    sender: FuseSender<T, R>,
    rep: ResponseData,
    plan: SendPlan,
)
    requires
        call_ensures(FuseSender::<T, R>::send, (&sender, &rep), plan),
    ensures
        plan.path == SendPath::Splice <==> sender.splice_enabled && rep.header.len >= 8192,
        plan.path == SendPath::Write <==> !sender.splice_enabled || rep.header.len < 8192,
        plan.log == sender.debug,
{
}

/// A write succeeds exactly where it moved the whole frame, and otherwise says what it
/// moved and what there was.
pub proof fn law_write_is_whole_or_fails<T, R>(
    sender: FuseSender<T, R>,
    rep: ResponseData,
    written: usize,
    r: Result<(), IoError>,
)
    requires
        call_ensures(FuseSender::<T, R>::write, (&sender, &rep, written), r),
    ensures
        r is Ok <==> written == rep.header.len,
        r matches Err(e) ==> e == (IoError::ShortWrite {
            written,
            len: rep.header.len as usize,
        }),
{
}

/// What a pipe holds after a step of a splice that went well.
pub open spec fn pipe_after(held: int, step: SpliceStep) -> int {
    match step {
        SpliceStep::Fill(n) => held + n,
        SpliceStep::Move(n) => held - n,
        SpliceStep::DrainThenFail(_) => 0,
        SpliceStep::Fail(_) => held,
        SpliceStep::Done => held,
    }
}

/// A splice that ends well put exactly the bytes of the frame into the pipe and took
/// exactly as many out, so a pipe that was empty is empty again.
pub proof fn law_splice_moves_whole_frame<T, R>(
    sender: FuseSender<T, R>,
    rep: ResponseData,
    first: SpliceStep,
    second: SpliceStep,
    third: SpliceStep,
)
    requires
        sender.splice_enabled,
        call_ensures(FuseSender::<T, R>::splice, (&sender, &rep, SpliceProgress::Begin), first),
        call_ensures(
            FuseSender::<T, R>::splice,
            (&sender, &rep, SpliceProgress::Filled(Ok(()))),
            second,
        ),
        call_ensures(
            FuseSender::<T, R>::splice,
            (&sender, &rep, SpliceProgress::Moved(Ok(()))),
            third,
        ),
    ensures
        first is Fill,
        second is Move,
        third is Done,
        pipe_after(0, first) == rep.header.len,
        pipe_after(pipe_after(0, first), second) == 0,
        forall|held: int| #[trigger]
            pipe_after(pipe_after(pipe_after(held, first), second), third) == held,
{
}

/// A splice that fails drains the pipe before it fails, with the error that it met;
/// one without a pipe fails at once; and no other splice fails.
pub proof fn law_failed_splice_drains<T, R>(
    sender: FuseSender<T, R>,
    rep: ResponseData,
    progress: SpliceProgress,
    step: SpliceStep,
    e: IoError,
)
    requires
        call_ensures(FuseSender::<T, R>::splice, (&sender, &rep, progress), step),
    ensures
        step is Fail <==> !sender.splice_enabled,
        step matches SpliceStep::Fail(e2) ==> e2 == IoError::NoPipe,
        step == SpliceStep::DrainThenFail(e) <==> sender.splice_enabled && (progress
            == SpliceProgress::Filled(Err(e)) || progress == SpliceProgress::Moved(Err(e))),
{
}

/// A drain reads on exactly after a read that got bytes or was interrupted.
pub proof fn law_drain_reads_on<T, R>(read: Result<usize, IoError>, step: DrainStep)
    requires
        call_ensures(FuseSender::<T, R>::drain_pipe, (read,), step),
    ensures
        match read {
            Ok(n) => step == DrainStep::Continue <==> n > 0,
            Err(IoError::Os(errno)) => step == DrainStep::Continue <==> errno == 4,
            Err(_) => step == DrainStep::Stop,
        },
{
}

} // verus!
