//! What calls on frames and reply handles do, stated of the calls.
use vstd::prelude::*;
use crate::errno::FuseError;
use crate::gauge_laws::{gave_back, unit_of, went_down, went_up};
use crate::metrics::{FuseReqKind, FuseReqLabels, FuseReqStatus, GaugeId, Gauges, UnsupportedReason};
use crate::response::{
    finish_enqueue_failure, EarlyFinish, EnqueueFailure, FuseResponse, FuseTask, NoReplyFinish,
    ResponseData, ResponseView,
};

verus! {

/// Whether a result can be told in a frame: the length has 32 bits, and the error
/// number can be negated.
pub open spec fn tellable(result: Result<Vec<u8>, FuseError>) -> bool {
    match result {
        Ok(body) => 16 + body@.len() <= 0xffff_ffff,
        Err(e) => e.errno > -0x8000_0000,
    }
}

/// Whether a frame tells the kernel that request `unique` ended with `result`: all of
/// its bytes on success, its error number on failure.
pub open spec fn tells(data: ResponseData, unique: u64, result: Result<Vec<u8>, FuseError>) -> bool {
    &&& data.header.unique == unique
    &&& match result {
        Ok(body) => {
            &&& data.header.error == 0
            &&& data.body@ == body@
            &&& data.header.len == 16 + body@.len()
        },
        Err(e) => {
            &&& data.header.error + e.errno == 0
            &&& data.body@.len() == 0
            &&& data.header.len == 16
        },
    }
}

/// The frame in a task.
pub open spec fn carried(task: FuseTask) -> ResponseData {
    match task {
        FuseTask::RequestReply { data, .. } => data,
        FuseTask::NotifyReply { data, .. } => data,
        FuseTask::Reply(data) => data,
    }
}

/// Whether nothing has answered or finished the request yet, as far as the handle
/// remembers. A handle without metrics remembers nothing.
pub open spec fn unanswered(r: ResponseView) -> bool {
    match r.metrics {
        Some(slot) => !slot.finished,
        None => true,
    }
}

/// Whether an operation that failed or not ended with this status.
pub open spec fn ended_as(
    status: FuseReqStatus,
    failed: bool,
    reason: Option<UnsupportedReason>,
    interrupted: bool,
) -> bool {
    &&& status == FuseReqStatus::Success <==> !failed
    &&& status == FuseReqStatus::Interrupted <==> failed && interrupted
    &&& status == FuseReqStatus::Unsupported <==> failed && !interrupted && reason is Some
    &&& status == FuseReqStatus::Error <==> failed && !interrupted && reason is None
}

/// The number of a result's error, zero without one.
pub open spec fn number_of<T>(result: Result<T, FuseError>) -> int {
    match result {
        Ok(_) => 0,
        Err(e) => e.errno as int,
    }
}

/// Whether nothing happened.
pub open spec fn untouched(
    before: ResponseView,
    now: ResponseView,
    levels: Seq<i64>,
    levels2: Seq<i64>,
) -> bool {
    now == before && levels2 == levels
}

/// Whether an answer with `result` did what it is for. A request that was not answered
/// is: a task carries its result to the sender, and where metrics are kept the task
/// takes the request's unit along, holds one of the queue, and the handle remembers
/// how the operation ended. One that was answered is left alone.
pub open spec fn answered_with(
    before: ResponseView,
    now: ResponseView,
    levels: Seq<i64>,
    levels2: Seq<i64>,
    task: Option<FuseTask>,
    result: Result<Vec<u8>, FuseError>,
    reason: Option<UnsupportedReason>,
    interrupted: bool,
) -> bool {
    if !unanswered(before) {
        task is None && untouched(before, now, levels, levels2)
    } else {
        &&& task is Some
        &&& tells(carried(task->0), before.unique, result)
        &&& match before.metrics {
            None => task->0 is Reply && untouched(before, now, levels, levels2),
            Some(slot) => {
                &&& now.unique == before.unique
                &&& now.debug == before.debug
                &&& now.metrics matches Some(slot2)
                &&& slot2.finished
                &&& slot2.active is None
                &&& slot2.labels == slot.labels
                &&& slot2.op_status is Some
                &&& ended_as(slot2.op_status->0, result is Err, reason, interrupted)
                &&& went_up(levels, levels2, GaugeId::ReplyQueueDepth)
                &&& task->0 matches FuseTask::RequestReply {
                    labels,
                    active,
                    status,
                    errno,
                    unsupported_reason,
                    queue_guard,
                    ..
                }
                &&& labels == slot.labels
                &&& unit_of(active, slot.active)
                &&& ended_as(status, result is Err, reason, interrupted)
                &&& errno == number_of(result)
                &&& unsupported_reason == reason
                &&& unit_of(queue_guard, Some(GaugeId::ReplyQueueDepth))
            },
        }
    }
}

/// Whether the request was finished without a reply: where metrics are kept and it was
/// not finished before, its unit is given back and `status` is what is remembered.
pub open spec fn finished_silently(
    before: ResponseView,
    now: ResponseView,
    levels: Seq<i64>,
    levels2: Seq<i64>,
    status: Option<FuseReqStatus>,
) -> bool {
    match before.metrics {
        None => untouched(before, now, levels, levels2),
        Some(slot) => if slot.finished {
            untouched(before, now, levels, levels2)
        } else {
            &&& now.unique == before.unique
            &&& now.debug == before.debug
            &&& now.metrics matches Some(slot2)
            &&& slot2.finished
            &&& slot2.active is None
            &&& slot2.labels == slot.labels
            &&& slot2.op_status == status
            &&& match slot.active {
                Some(unit) => went_down(levels, levels2, unit),
                None => levels2 == levels,
            }
        },
    }
}

/// Whether a finish without a reply leaves something to record, and for whom.
pub open spec fn recordable(before: ResponseView, labels: Option<FuseReqLabels>) -> bool {
    match before.metrics {
        None => labels is None,
        Some(slot) => labels == if slot.finished {
            None
        } else {
            Some(slot.labels)
        },
    }
}

/// Every result that can be told in a frame can be answered with.
pub proof fn law_tellable_results_can_be_sent(
    r: &mut FuseResponse,
    gauges: &mut Gauges,
    unique: u64,
    result: Result<Vec<u8>, FuseError>,
    reason: Option<UnsupportedReason>,
    interrupted: bool,
)
    requires
        tellable(result),
    ensures
        call_requires(ResponseData::create, (unique, result)),
        call_requires(FuseResponse::send_rep, (r, gauges, result)),
        call_requires(
            FuseResponse::send_rep_tagged,
            (r, gauges, result, reason, interrupted),
        ),
{
}

/// A frame tells the result it is made for, and its length is what it takes on the
/// wire.
pub proof fn law_frame_tells_result(
    unique: u64,
    result: Result<Vec<u8>, FuseError>,
    data: ResponseData,
    len: usize,
)
    requires
        tellable(result),
        call_ensures(ResponseData::create, (unique, result), data),
        call_ensures(ResponseData::len, (&data,), len),
    ensures
        tells(data, unique, result),
        len == 16 + data.body@.len(),
{
}

/// A new handle answers for its request and was not answered. With labels it is
/// metered and took a unit of the gauge of their kind; without, no gauge moved.
pub proof fn law_new_handle_is_open(
    gauges: &mut Gauges,
    unique: u64,
    debug: bool,
    labels: Option<FuseReqLabels>,
    r: FuseResponse,
)
    requires
        call_ensures(FuseResponse::new_reply, (gauges, unique, debug, labels), r),
    ensures
        opened_for(r@, old(gauges)@, final(gauges)@, unique, debug, labels),
{
    old(gauges).lemma_places();
}

/// Whether a handle is that of request `unique`, with nothing answered.
pub open spec fn opened_for(
    r: ResponseView,
    levels: Seq<i64>,
    levels2: Seq<i64>,
    unique: u64,
    debug: bool,
    labels: Option<FuseReqLabels>,
) -> bool {
    &&& r.unique == unique
    &&& r.debug == debug
    &&& match labels {
        None => r.metrics is None && levels2 == levels,
        Some(labels) => {
            let unit = match labels.kind {
                FuseReqKind::Metadata => GaugeId::ActiveMetadata,
                FuseReqKind::Stream => GaugeId::ActiveStream,
            };
            &&& r.metrics matches Some(slot)
            &&& slot.labels == labels
            &&& slot.active == Some(unit)
            &&& !slot.finished
            &&& slot.op_status is None
            &&& went_up(levels, levels2, unit)
        },
    }
}

/// What a handle says of itself is what it is.
pub proof fn law_handle_answers_truly(
    r: FuseResponse,
    metered: bool,
    debug: bool,
    finished: bool,
    active: bool,
    status: Option<FuseReqStatus>,
)
    requires
        call_ensures(FuseResponse::is_metered, (&r,), metered),
        call_ensures(FuseResponse::is_debug, (&r,), debug),
        call_ensures(FuseResponse::is_finished, (&r,), finished),
        call_ensures(FuseResponse::holds_active, (&r,), active),
        call_ensures(FuseResponse::metrics_op_status, (&r,), status),
    ensures
        metered == r@.metrics is Some,
        debug == r@.debug,
        finished == !unanswered(r@),
        active == (metered && r@.metrics->0.active is Some),
        status == if metered {
            r@.metrics->0.op_status
        } else {
            None
        },
{
}

/// An answer carries its result to the sender, once.
pub proof fn law_answer_carries_result(
    r: &mut FuseResponse,
    gauges: &mut Gauges,
    result: Result<Vec<u8>, FuseError>,
    reason: Option<UnsupportedReason>,
    interrupted: bool,
    task: Option<FuseTask>,
)
    requires
        tellable(result),
        call_ensures(
            FuseResponse::send_rep_tagged,
            (r, gauges, result, reason, interrupted),
            task,
        ),
    ensures
        answered_with(
            old(r)@,
            final(r)@,
            old(gauges)@,
            final(gauges)@,
            task,
            result,
            reason,
            interrupted,
        ),
{
    old(gauges).lemma_places();
}

/// A plain answer is one without a reason that is no interruption.
pub proof fn law_plain_answer_carries_result(
    r: &mut FuseResponse,
    gauges: &mut Gauges,
    result: Result<Vec<u8>, FuseError>,
    task: Option<FuseTask>,
)
    requires
        tellable(result),
        call_ensures(FuseResponse::send_rep, (r, gauges, result), task),
    ensures
        answered_with(
            old(r)@,
            final(r)@,
            old(gauges)@,
            final(gauges)@,
            task,
            result,
            None,
            false,
        ),
{
    old(gauges).lemma_places();
}

/// A request that expects no reply is finished with how it ended, and that is recorded
/// once.
pub proof fn law_unreplied_request_is_finished(
    r: &mut FuseResponse,
    gauges: &mut Gauges,
    result: Result<(), FuseError>,
    done: Option<NoReplyFinish>,
)
    requires
        call_ensures(FuseResponse::send_none, (r, gauges, result), done),
    ensures
        finished_silently(
            old(r)@,
            final(r)@,
            old(gauges)@,
            final(gauges)@,
            Some(
                if result is Ok {
                    FuseReqStatus::Success
                } else {
                    FuseReqStatus::Error
                },
            ),
        ),
        match done {
            Some(done) => {
                &&& recordable(old(r)@, Some(done.labels))
                &&& ended_as(done.status, result is Err, None, false)
                &&& done.errno == number_of(result)
            },
            None => recordable(old(r)@, None),
        },
{
    old(gauges).lemma_places();
}

/// A request that is not dispatched is finished without a status, and its error and
/// reason are recorded once.
pub proof fn law_early_finish_is_recorded(
    r: &mut FuseResponse,
    gauges: &mut Gauges,
    errno: i32,
    reason: &'static str,
    early: Option<EarlyFinish>,
)
    requires
        call_ensures(FuseResponse::finish_early, (r, gauges, errno, reason), early),
    ensures
        finished_silently(old(r)@, final(r)@, old(gauges)@, final(gauges)@, None),
        match early {
            Some(early) => {
                &&& recordable(old(r)@, Some(early.labels))
                &&& early.errno == errno
                &&& early.reason == reason
            },
            None => recordable(old(r)@, None),
        },
{
    old(gauges).lemma_places();
}

/// A handle that is abandoned gives its unit back and leaves no status.
pub proof fn law_abandoned_handle_gives_back(r: &mut FuseResponse, gauges: &mut Gauges)
    requires
        call_ensures(FuseResponse::abandon, (r, gauges), ()),
    ensures
        finished_silently(old(r)@, final(r)@, old(gauges)@, final(gauges)@, None),
{
    old(gauges).lemma_places();
}

/// After an answer, a silent finish or an abandonment nothing is answered, finished or
/// given back again: the second call, whichever it is, does nothing.
pub proof fn law_request_ends_once(
    r: &mut FuseResponse,
    gauges: &mut Gauges,
    result: Result<Vec<u8>, FuseError>,
    task: Option<FuseTask>,
    r2: &mut FuseResponse,
    gauges2: &mut Gauges,
    result2: Result<Vec<u8>, FuseError>,
    task2: Option<FuseTask>,
    r3: &mut FuseResponse,
    gauges3: &mut Gauges,
)
    requires
        old(r)@.metrics is Some,
        tellable(result),
        tellable(result2),
        call_ensures(FuseResponse::send_rep, (r, gauges, result), task) || call_ensures(
            FuseResponse::abandon,
            (r, gauges),
            (),
        ),
        *old(r2) == *final(r),
        *old(r3) == *final(r),
        call_ensures(FuseResponse::send_rep, (r2, gauges2, result2), task2),
        call_ensures(FuseResponse::abandon, (r3, gauges3), ()),
    ensures
        task2 is None,
        untouched(old(r2)@, final(r2)@, old(gauges2)@, final(gauges2)@),
        untouched(old(r3)@, final(r3)@, old(gauges3)@, final(gauges3)@),
{
}

/// A task that could not be queued gives its units back, and a metered request is
/// recorded as failed, under its labels and its own operation status, because the
/// channel is closed.
pub proof fn law_unqueued_task_is_recorded(
    gauges: &mut Gauges,
    task: FuseTask,
    failure: Option<EnqueueFailure>,
)
    requires
        call_ensures(finish_enqueue_failure, (gauges, task), failure),
    ensures
        match task {
            FuseTask::RequestReply { labels, active, status, errno, queue_guard, .. } => {
                &&& failure matches Some(failure)
                &&& failure.labels == labels
                &&& failure.op_status == status
                &&& failure.request_status == FuseReqStatus::Error
                &&& failure.errno == errno
                &&& failure.reason@ == "channel_closed"@
                &&& exists|between: Seq<i64>| #[trigger]
                    gave_back(old(gauges)@, between, queue_guard) && gave_back(
                        between,
                        final(gauges)@,
                        active,
                    )
            },
            FuseTask::NotifyReply { queue_guard, .. } => {
                failure is None && gave_back(old(gauges)@, final(gauges)@, queue_guard)
            },
            FuseTask::Reply(_) => failure is None && final(gauges)@ == old(gauges)@,
        },
{
    old(gauges).lemma_places();
    if let FuseTask::RequestReply { active, queue_guard, .. } = task {
        let between = crate::metrics::lowered_opt(
            old(gauges)@,
            crate::metrics::guard_view(queue_guard),
        );
        assert(gave_back(old(gauges)@, between, queue_guard));
        assert(gave_back(between, final(gauges)@, active));
    }
}

} // verus!
