//! Reply frames, reply tasks and the reply handle of one request.
use vstd::prelude::*;
use crate::errno::FuseError;
use crate::metrics::{guard_view, lowered_opt, raised};
use crate::metrics::{
    release_opt, ActiveGuard, FuseReqLabels, FuseReqStatus, GaugeId, Gauges, UnsupportedReason,
};

verus! {

/// Bytes of a reply header on the wire.
pub const FUSE_OUT_HEADER_LEN: usize = 16;

/// The header of a reply frame.
#[derive(Clone, Copy, Debug, PartialEq, Eq, Structural)]
pub struct OutHeader {
    /// Length of the whole frame in bytes.
    pub len: u32,
    /// Zero, or the negated error number.
    pub error: i32,
    /// The number of the request that is answered.
    pub unique: u64,
}

/// A reply frame: header and body.
pub struct ResponseData {
    pub header: OutHeader,
    pub body: Vec<u8>,
}

/// A reply frame as a value.
#[verifier::ext_equal]
pub struct FrameView {
    pub header: OutHeader,
    pub body: Seq<u8>,
}

impl View for ResponseData {
    type V = FrameView;

    open spec fn view(&self) -> FrameView {
        FrameView { header: self.header, body: self.body@ }
    }
}

/// An operation's result with its body as a value.
pub open spec fn result_view(result: Result<Vec<u8>, FuseError>) -> Result<Seq<u8>, FuseError> {
    match result {
        Ok(body) => Ok(body@),
        Err(e) => Err(e),
    }
}

/// Whether the result can be put on the wire: the length field has 32 bits and
/// the error field holds the negated error number.
pub open spec fn sendable(result: Result<Seq<u8>, FuseError>) -> bool {
    match result {
        Ok(body) => body.len() + FUSE_OUT_HEADER_LEN <= u32::MAX,
        Err(e) => e.errno > i32::MIN,
    }
}

/// The frame that answers request `unique` with `result`: the body on success,
/// the bare header with the negated error number on failure.
pub open spec fn frame(unique: u64, result: Result<Seq<u8>, FuseError>) -> FrameView {
    match result {
        Ok(body) => FrameView {
            header: OutHeader { len: (FUSE_OUT_HEADER_LEN + body.len()) as u32, error: 0, unique },
            body,
        },
        Err(e) => FrameView {
            header: OutHeader {
                len: FUSE_OUT_HEADER_LEN as u32,
                error: (-e.errno) as i32,
                unique,
            },
            body: Seq::empty(),
        },
    }
}

impl ResponseData {
    /// Builds the frame that answers request `unique` with `result`.
    pub fn create(unique: u64, result: Result<Vec<u8>, FuseError>) -> (r: ResponseData)
        requires
            sendable(result_view(result)),
        ensures
            r@ == frame(unique, result_view(result)),
    {
        match result {
            Ok(body) => {
                let len: u32 = (FUSE_OUT_HEADER_LEN + body.len()) as u32;
                ResponseData { header: OutHeader { len, error: 0, unique }, body }
            },
            Err(e) => ResponseData {
                header: OutHeader { len: FUSE_OUT_HEADER_LEN as u32, error: -e.errno, unique },
                body: Vec::new(),
            },
        }
    }

    /// The number of bytes that the frame takes on the wire.
    pub fn len(&self) -> (r: usize)
        ensures
            r == self.header.len,
    {
        self.header.len as usize
    }
}

/// What the dispatch side hands to the sender.
pub enum FuseTask {
    /// The reply of a request whose metrics are kept.
    RequestReply {
        data: ResponseData,
        labels: FuseReqLabels,
        /// The unit of the active gauge that the request holds.
        active: Option<ActiveGuard>,
        status: FuseReqStatus,
        errno: i32,
        unsupported_reason: Option<UnsupportedReason>,
        /// The unit of the queue gauge that the task holds while it waits.
        queue_guard: Option<ActiveGuard>,
    },
    /// A notification to the kernel, with its notify code.
    NotifyReply { data: ResponseData, code: i32, queue_guard: Option<ActiveGuard> },
    /// The reply of a request whose metrics are not kept.
    Reply(ResponseData),
}

/// A reply task as a value.
#[verifier::ext_equal]
pub enum TaskView {
    RequestReply {
        data: FrameView,
        labels: FuseReqLabels,
        active: Option<GaugeId>,
        status: FuseReqStatus,
        errno: i32,
        unsupported_reason: Option<UnsupportedReason>,
        queue_guard: Option<GaugeId>,
    },
    NotifyReply { data: FrameView, code: i32, queue_guard: Option<GaugeId> },
    Reply(FrameView),
}

impl View for FuseTask {
    type V = TaskView;

    open spec fn view(&self) -> TaskView {
        match *self {
            FuseTask::RequestReply {
                data,
                labels,
                active,
                status,
                errno,
                unsupported_reason,
                queue_guard,
            } => TaskView::RequestReply {
                data: data@,
                labels,
                active: guard_view(active),
                status,
                errno,
                unsupported_reason,
                queue_guard: guard_view(queue_guard),
            },
            FuseTask::NotifyReply { data, code, queue_guard } => TaskView::NotifyReply {
                data: data@,
                code,
                queue_guard: guard_view(queue_guard),
            },
            FuseTask::Reply(data) => TaskView::Reply(data@),
        }
    }
}

/// An optional task as a value.
pub open spec fn task_view(task: Option<FuseTask>) -> Option<TaskView> {
    match task {
        Some(task) => Some(task@),
        None => None,
    }
}

/// What the metrics of one request remember until it is finished.
pub struct MetricsSlot {
    labels: FuseReqLabels,
    active: Option<ActiveGuard>,
    finished: bool,
    op_status: Option<FuseReqStatus>,
}

/// A metrics slot as a value.
pub struct SlotView {
    pub labels: FuseReqLabels,
    pub active: Option<GaugeId>,
    pub finished: bool,
    pub op_status: Option<FuseReqStatus>,
}

impl View for MetricsSlot {
    type V = SlotView;

    closed spec fn view(&self) -> SlotView {
        SlotView {
            labels: self.labels,
            active: guard_view(self.active),
            finished: self.finished,
            op_status: self.op_status,
        }
    }
}

/// The reply handle of one request. Everyone who may answer the request shares
/// it. With metrics it remembers whether the request was answered; without, it
/// is the bare address of the answer.
pub struct FuseResponse {
    unique: u64,
    debug: bool,
    metrics: Option<MetricsSlot>,
}

/// A reply handle as a value.
pub struct ResponseView {
    pub unique: u64,
    pub debug: bool,
    pub metrics: Option<SlotView>,
}

impl View for FuseResponse {
    type V = ResponseView;

    closed spec fn view(&self) -> ResponseView {
        ResponseView {
            unique: self.unique,
            debug: self.debug,
            metrics: match self.metrics {
                Some(slot) => Some(slot@),
                None => None,
            },
        }
    }
}

impl ResponseView {
    /// The handle as it is before anything answered: with labels, the slot holds
    /// a unit of the gauge of its kind.
    pub open spec fn fresh(unique: u64, debug: bool, labels: Option<FuseReqLabels>) -> ResponseView {
        ResponseView {
            unique,
            debug,
            metrics: match labels {
                Some(labels) => Some(
                    SlotView {
                        labels,
                        active: Some(labels.kind.gauge()),
                        finished: false,
                        op_status: None,
                    },
                ),
                None => None,
            },
        }
    }

    /// Whether metrics are kept for the request.
    pub open spec fn metered(self) -> bool {
        self.metrics is Some
    }

    /// Whether the request was answered, as far as the handle remembers.
    pub open spec fn answered(self) -> bool {
        self.metrics is Some && self.metrics->0.finished
    }

    /// What every handle keeps: the request holds its unit of the gauge of its
    /// kind exactly until it is finished, and a finish without a status is an
    /// early one.
    pub open spec fn wf(self) -> bool {
        match self.metrics {
            Some(slot) => {
                &&& slot.active == if slot.finished {
                    None
                } else {
                    Some(slot.labels.kind.gauge())
                }
                &&& slot.op_status is Some ==> slot.finished
            },
            None => true,
        }
    }

    /// The handle after its slot was finished with `status`.
    pub open spec fn finished(self, status: Option<FuseReqStatus>) -> ResponseView {
        ResponseView {
            metrics: match self.metrics {
                Some(slot) => Some(
                    SlotView { active: None, finished: true, op_status: status, ..slot },
                ),
                None => None,
            },
            ..self
        }
    }
}

/// The status of an operation that ended with an error or not: an error is
/// interrupted or unsupported where its source says so.
pub open spec fn op_status(
    failed: bool,
    reason: Option<UnsupportedReason>,
    interrupted: bool,
) -> FuseReqStatus {
    if !failed {
        FuseReqStatus::Success
    } else if interrupted {
        FuseReqStatus::Interrupted
    } else if reason is Some {
        FuseReqStatus::Unsupported
    } else {
        FuseReqStatus::Error
    }
}

/// The error number of a result, zero on success.
pub open spec fn result_errno<T>(result: Result<T, FuseError>) -> i32 {
    match result {
        Ok(_) => 0,
        Err(e) => e.errno,
    }
}

/// The task that carries an answer: a metered one travels with the request's
/// unit of the active gauge and a unit of the queue gauge.
pub open spec fn reply_task(
    r: ResponseView,
    result: Result<Seq<u8>, FuseError>,
    reason: Option<UnsupportedReason>,
    interrupted: bool,
) -> TaskView {
    match r.metrics {
        Some(slot) => TaskView::RequestReply {
            data: frame(r.unique, result),
            labels: slot.labels,
            active: slot.active,
            status: op_status(result is Err, reason, interrupted),
            errno: result_errno(result),
            unsupported_reason: reason,
            queue_guard: Some(GaugeId::ReplyQueueDepth),
        },
        None => TaskView::Reply(frame(r.unique, result)),
    }
}

/// What an answer does: the handle after it, the gauges after it, the task.
pub open spec fn answer(
    r: ResponseView,
    levels: Seq<i64>,
    result: Result<Seq<u8>, FuseError>,
    reason: Option<UnsupportedReason>,
    interrupted: bool,
) -> (ResponseView, Seq<i64>, Option<TaskView>) {
    if r.answered() {
        (r, levels, None)
    } else if r.metered() {
        (
            r.finished(Some(op_status(result is Err, reason, interrupted))),
            raised(levels, GaugeId::ReplyQueueDepth),
            Some(reply_task(r, result, reason, interrupted)),
        )
    } else {
        (r, levels, Some(reply_task(r, result, reason, interrupted)))
    }
}

/// What a finish without a reply does, the gauges included.
pub open spec fn silent_finish(
    r: ResponseView,
    levels: Seq<i64>,
    status: Option<FuseReqStatus>,
) -> (ResponseView, Seq<i64>) {
    if r.metered() && !r.answered() {
        (r.finished(status), lowered_opt(levels, r.metrics->0.active))
    } else {
        (r, levels)
    }
}

/// The labels of a request that is finished without a reply, where metrics are
/// kept and it was not finished before.
pub open spec fn silent_labels(r: ResponseView) -> Option<FuseReqLabels> {
    if r.metered() && !r.answered() {
        Some(r.metrics->0.labels)
    } else {
        None
    }
}

/// A request that ended before it was dispatched: no reply, no operation.
#[derive(Clone, Copy, Debug)]
pub struct EarlyFinish {
    pub labels: FuseReqLabels,
    pub errno: i32,
    pub reason: &'static str,
}

/// A request that ended without a reply because none is expected.
#[derive(Clone, Copy, Debug, PartialEq, Eq, Structural)]
pub struct NoReplyFinish {
    pub labels: FuseReqLabels,
    pub status: FuseReqStatus,
    pub errno: i32,
}

/// The reason of every reply that could not be queued: the sender is gone.
pub const ENQUEUE_REASON_CHANNEL_CLOSED: &'static str = "channel_closed";

/// A reply that could not be queued. The operation keeps its own status; the
/// request failed.
#[derive(Clone, Copy, Debug)]
pub struct EnqueueFailure {
    pub labels: FuseReqLabels,
    pub op_status: FuseReqStatus,
    pub request_status: FuseReqStatus,
    pub errno: i32,
    pub reason: &'static str,
}

/// The status of a request whose operation ended with `op_status`: an answer that
/// does not reach the kernel makes it an error.
pub open spec fn request_status(op_status: FuseReqStatus, delivered: bool) -> FuseReqStatus {
    if delivered {
        op_status
    } else {
        FuseReqStatus::Error
    }
}

impl FuseResponse {
    /// The reply handle of request `unique`. With labels it keeps metrics and
    /// holds one unit of the gauge of their kind; without, it touches no gauge.
    pub fn new_reply(
        gauges: &mut Gauges,
        unique: u64,
        debug: bool,
        labels: Option<FuseReqLabels>,
    ) -> (r: FuseResponse)
        ensures
            r@ == ResponseView::fresh(unique, debug, labels),
            r@.wf(),
            match labels {
                Some(labels) => final(gauges)@ == raised(old(gauges)@, labels.kind.gauge()),
                None => final(gauges)@ == old(gauges)@,
            },
    {
        let metrics = match labels {
            Some(labels) => {
                let active = ActiveGuard::new(gauges, labels.kind.active_gauge());
                Some(MetricsSlot { labels, active: Some(active), finished: false, op_status: None })
            },
            None => None,
        };
        FuseResponse { unique, debug, metrics }
    }

    /// Whether metrics are kept for the request.
    pub fn is_metered(&self) -> (r: bool)
        ensures
            r == self@.metered(),
    {
        self.metrics.is_some()
    }

    /// Whether replies are to be logged.
    pub fn is_debug(&self) -> (r: bool)
        ensures
            r == self@.debug,
    {
        self.debug
    }

    /// Whether the request was answered, as far as the handle remembers.
    pub fn is_finished(&self) -> (r: bool)
        ensures
            r == self@.answered(),
    {
        match &self.metrics {
            Some(slot) => slot.finished,
            None => false,
        }
    }

    /// Whether the handle still holds its unit of the active gauge.
    pub fn holds_active(&self) -> (r: bool)
        ensures
            r == (self@.metrics is Some && self@.metrics->0.active is Some),
    {
        match &self.metrics {
            Some(slot) => slot.active.is_some(),
            None => false,
        }
    }

    /// The status that the operation's answer left behind.
    pub fn metrics_op_status(&self) -> (r: Option<FuseReqStatus>)
        ensures
            r == match self@.metrics {
                Some(slot) => slot.op_status,
                None => None,
            },
    {
        match &self.metrics {
            Some(slot) => slot.op_status,
            None => None,
        }
    }

    /// Answers the request with `result`. The first answer becomes a task for the
    /// sender; a later one on a metered handle is dropped. `reason` and
    /// `interrupted` say what kind of error it is.
    pub fn send_rep_tagged(
        &mut self,
        gauges: &mut Gauges,
        result: Result<Vec<u8>, FuseError>,
        reason: Option<UnsupportedReason>,
        interrupted: bool,
    ) -> (task: Option<FuseTask>)
        requires
            sendable(result_view(result)),
        ensures
            (final(self)@, final(gauges)@, task_view(task)) == answer(
                old(self)@,
                old(gauges)@,
                result_view(result),
                reason,
                interrupted,
            ),
    {
        let (failed, errno): (bool, i32) = match &result {
            Ok(_) => (false, 0),
            Err(e) => (true, e.errno),
        };
        let status = if !failed {
            FuseReqStatus::Success
        } else if interrupted {
            FuseReqStatus::Interrupted
        } else if reason.is_some() {
            FuseReqStatus::Unsupported
        } else {
            FuseReqStatus::Error
        };
        let slot = match self.metrics.take() {
            None => {
                return Some(FuseTask::Reply(ResponseData::create(self.unique, result)));
            },
            Some(slot) => slot,
        };
        if slot.finished {
            self.metrics = Some(slot);
            return None;
        }
        let labels = slot.labels;
        let active = slot.active;
        self.metrics = Some(
            MetricsSlot { labels, active: None, finished: true, op_status: Some(status) },
        );
        let queue_guard = ActiveGuard::new(gauges, GaugeId::ReplyQueueDepth);
        Some(
            FuseTask::RequestReply {
                data: ResponseData::create(self.unique, result),
                labels,
                active,
                status,
                errno,
                unsupported_reason: reason,
                queue_guard: Some(queue_guard),
            },
        )
    }

    /// Answers the request with `result`, an error being a plain one.
    pub fn send_rep(&mut self, gauges: &mut Gauges, result: Result<Vec<u8>, FuseError>) -> (task:
        Option<FuseTask>)
        requires
            sendable(result_view(result)),
        ensures
            (final(self)@, final(gauges)@, task_view(task)) == answer(
                old(self)@,
                old(gauges)@,
                result_view(result),
                None,
                false,
            ),
    {
        self.send_rep_tagged(gauges, result, None, false)
    }

    /// Finishes a request that expects no reply. Its status is that of `result`.
    pub fn send_none(&mut self, gauges: &mut Gauges, result: Result<(), FuseError>) -> (done:
        Option<NoReplyFinish>)
        ensures
            (final(self)@, final(gauges)@) == silent_finish(
                old(self)@,
                old(gauges)@,
                Some(op_status(result is Err, None, false)),
            ),
            done == match silent_labels(old(self)@) {
                Some(labels) => Some(
                    NoReplyFinish {
                        labels,
                        status: op_status(result is Err, None, false),
                        errno: result_errno(result),
                    },
                ),
                None => None,
            },
    {
        let (status, errno): (FuseReqStatus, i32) = match result {
            Ok(_) => (FuseReqStatus::Success, 0),
            Err(e) => (FuseReqStatus::Error, e.errno),
        };
        match self.finish_silently(gauges, Some(status)) {
            Some(labels) => Some(NoReplyFinish { labels, status, errno }),
            None => None,
        }
    }

    /// Finishes a request that is not dispatched: the unit of the active gauge is
    /// given back, no reply is owed and no operation took place.
    pub fn finish_early(&mut self, gauges: &mut Gauges, errno: i32, reason: &'static str) -> (early:
        Option<EarlyFinish>)
        ensures
            (final(self)@, final(gauges)@) == silent_finish(old(self)@, old(gauges)@, None),
            early == match silent_labels(old(self)@) {
                Some(labels) => Some(EarlyFinish { labels, errno, reason }),
                None => None,
            },
    {
        match self.finish_silently(gauges, None) {
            Some(labels) => Some(EarlyFinish { labels, errno, reason }),
            None => None,
        }
    }

    /// Drops the handle's claim on a request that nobody will answer any more: the
    /// unit of the active gauge, if the handle still holds it, is given back, and
    /// nothing is recorded.
    pub fn abandon(&mut self, gauges: &mut Gauges)
        ensures
            (final(self)@, final(gauges)@) == silent_finish(old(self)@, old(gauges)@, None),
    {
        let _ = self.finish_silently(gauges, None);
    }

    fn finish_silently(&mut self, gauges: &mut Gauges, status: Option<FuseReqStatus>) -> (labels:
        Option<FuseReqLabels>)
        ensures
            (final(self)@, final(gauges)@) == silent_finish(old(self)@, old(gauges)@, status),
            labels == silent_labels(old(self)@),
    {
        let slot = match self.metrics.take() {
            None => {
                return None;
            },
            Some(slot) => slot,
        };
        if slot.finished {
            self.metrics = Some(slot);
            return None;
        }
        let labels = slot.labels;
        release_opt(slot.active, gauges);
        self.metrics = Some(MetricsSlot { labels, active: None, finished: true, op_status: status });
        Some(labels)
    }
}

/// What a task that could not be queued leaves in the gauges.
pub open spec fn abandoned(levels: Seq<i64>, task: TaskView) -> Seq<i64> {
    match task {
        TaskView::RequestReply { active, queue_guard, .. } => lowered_opt(
            lowered_opt(levels, queue_guard),
            active,
        ),
        TaskView::NotifyReply { queue_guard, .. } => lowered_opt(levels, queue_guard),
        TaskView::Reply(_) => levels,
    }
}

/// Gives up a task that could not be queued: its guards let go, and a metered
/// request is counted as failed, the channel being closed, while its operation
/// keeps its status.
pub fn finish_enqueue_failure(gauges: &mut Gauges, task: FuseTask) -> (failure: Option<
    EnqueueFailure,
>)
    ensures
        final(gauges)@ == abandoned(old(gauges)@, task@),
        failure == match task@ {
            TaskView::RequestReply { labels, status, errno, .. } => Some(
                EnqueueFailure {
                    labels,
                    op_status: status,
                    request_status: request_status(status, false),
                    errno,
                    reason: ENQUEUE_REASON_CHANNEL_CLOSED,
                },
            ),
            _ => None,
        },
{
    match task {
        FuseTask::RequestReply { labels, active, status, errno, queue_guard, .. } => {
            release_opt(queue_guard, gauges);
            release_opt(active, gauges);
            Some(
                EnqueueFailure {
                    labels,
                    op_status: status,
                    request_status: FuseReqStatus::Error,
                    errno,
                    reason: ENQUEUE_REASON_CHANNEL_CLOSED,
                },
            )
        },
        FuseTask::NotifyReply { queue_guard, .. } => {
            release_opt(queue_guard, gauges);
            None
        },
        FuseTask::Reply(_) => None,
    }
}

} // verus!
