//! The sender: takes reply tasks from the queue and delivers them to the kernel.
//!
//! For each task, [`FuseSender::start`] takes it off the queue and says what is
//! to be written, [`FuseSender::send`] picks the transfer,
//! [`FuseSender::finish`] says what is recorded once the transfer has ended, and
//! [`settle`] gives the request's unit back after that.
use vstd::prelude::*;
use crate::errno::{IoError, EINTR, ENOENT};
use crate::metrics::{guard_view, lowered_opt};
use crate::metrics::{
    release_opt, ActiveGuard, FuseReqLabels, FuseReqStatus, GaugeId, Gauges, UnsupportedReason,
    WriteOutcome,
};
use crate::response::{request_status, FrameView, TaskView};
use crate::response::{FuseTask, ResponseData};

verus! {

/// Smaller replies are written directly; splicing pays off from here on.
pub const SPLICE_THRESHOLD: usize = 8192;

/// The sender's settings, the file system it serves and the runtime it runs on.
pub struct FuseSender<T, R> {
    pub fs: T,
    pub rt: R,
    /// Whether the sender has a pipe to splice through.
    pub splice_enabled: bool,
    /// Whether replies are logged.
    pub debug: bool,
    /// Whether the sender reports its liveness.
    pub progress: bool,
}

/// How a reply goes to the kernel.
#[derive(Clone, Copy, Debug, PartialEq, Eq, Structural)]
pub enum SendPath {
    Splice,
    Write,
}

/// The transfer of one reply.
#[derive(Clone, Copy, Debug, PartialEq, Eq, Structural)]
pub struct SendPlan {
    /// Whether the reply's header is logged.
    pub log: bool,
    pub path: SendPath,
}

/// What happened last in a splice.
#[derive(Clone, Copy, Debug)]
pub enum SpliceProgress {
    /// Nothing yet.
    Begin,
    /// The reply was copied into the pipe.
    Filled(Result<(), IoError>),
    /// The pipe was moved to the kernel.
    Moved(Result<(), IoError>),
}

/// What a splice does next.
#[derive(Clone, Copy, Debug, PartialEq, Eq, Structural)]
pub enum SpliceStep {
    /// Copy this many bytes, the whole reply, into the pipe.
    Fill(usize),
    /// Move this many bytes from the pipe to the kernel.
    Move(usize),
    /// Drain the pipe, and fail with this error.
    DrainThenFail(IoError),
    /// Fail with this error.
    Fail(IoError),
    Done,
}

/// Whether a drain reads on.
#[derive(Clone, Copy, Debug, PartialEq, Eq, Structural)]
pub enum DrainStep {
    Continue,
    Stop,
}

/// What is remembered of a task while its frame is on its way.
pub enum Delivery {
    Request {
        unique: u64,
        labels: FuseReqLabels,
        active: Option<ActiveGuard>,
        status: FuseReqStatus,
        errno: i32,
        unsupported_reason: Option<UnsupportedReason>,
        response_bytes: usize,
    },
    Notify { unique: u64, code: i32 },
    Plain { unique: u64 },
}

/// What is recorded of a finished request.
#[derive(Clone, Copy, Debug, PartialEq, Eq, Structural)]
pub struct RequestFinish {
    pub labels: FuseReqLabels,
    /// How the operation ended.
    pub op_status: FuseReqStatus,
    /// How the request ended, delivery counted in.
    pub request_status: FuseReqStatus,
    pub errno: i32,
    pub unsupported_reason: Option<UnsupportedReason>,
    pub response_bytes: usize,
    pub write: WriteOutcome,
}

/// How a notification ended.
#[derive(Clone, Copy, Debug, PartialEq, Eq, Structural)]
pub struct NotifyResult {
    pub code: i32,
    pub success: bool,
}

/// What is recorded once a transfer has ended.
#[derive(Clone, Copy, Debug, PartialEq, Eq, Structural)]
pub struct SendReport {
    /// The number of the frame whose failure is worth a warning.
    pub warn: Option<u64>,
    pub request: Option<RequestFinish>,
    pub notify: Option<NotifyResult>,
    /// Whether the sender's liveness is reported.
    pub progress: bool,
}

/// A delivery as a value.
pub enum DeliveryView {
    Request {
        unique: u64,
        labels: FuseReqLabels,
        active: Option<GaugeId>,
        status: FuseReqStatus,
        errno: i32,
        unsupported_reason: Option<UnsupportedReason>,
        response_bytes: int,
    },
    Notify { unique: u64, code: i32 },
    Plain { unique: u64 },
}

impl View for Delivery {
    type V = DeliveryView;

    open spec fn view(&self) -> DeliveryView {
        match *self {
            Delivery::Request {
                unique,
                labels,
                active,
                status,
                errno,
                unsupported_reason,
                response_bytes,
            } => DeliveryView::Request {
                unique,
                labels,
                active: guard_view(active),
                status,
                errno,
                unsupported_reason,
                response_bytes: response_bytes as int,
            },
            Delivery::Notify { unique, code } => DeliveryView::Notify { unique, code },
            Delivery::Plain { unique } => DeliveryView::Plain { unique },
        }
    }
}

/// The gauges after a task left the queue.
pub open spec fn dequeued(levels: Seq<i64>, task: TaskView) -> Seq<i64> {
    match task {
        TaskView::RequestReply { queue_guard, .. } => lowered_opt(
            levels,
            queue_guard,
        ),
        TaskView::NotifyReply { queue_guard, .. } => lowered_opt(
            levels,
            queue_guard,
        ),
        TaskView::Reply(_) => levels,
    }
}

/// The frame that a task carries.
pub open spec fn task_frame(task: TaskView) -> FrameView {
    match task {
        TaskView::RequestReply { data, .. } => data,
        TaskView::NotifyReply { data, .. } => data,
        TaskView::Reply(data) => data,
    }
}

/// What is remembered of a task while its frame is on its way.
pub open spec fn delivery_of(task: TaskView) -> DeliveryView {
    match task {
        TaskView::RequestReply {
            data,
            labels,
            active,
            status,
            errno,
            unsupported_reason,
            ..
        } => DeliveryView::Request {
            unique: data.header.unique,
            labels,
            active,
            status,
            errno,
            unsupported_reason,
            response_bytes: data.header.len as int,
        },
        TaskView::NotifyReply { data, code, .. } => DeliveryView::Notify {
            unique: data.header.unique,
            code,
        },
        TaskView::Reply(data) => DeliveryView::Plain { unique: data.header.unique },
    }
}

/// The frame whose failed transfer is worth a warning: any but one that the
/// kernel no longer waits for.
pub open spec fn warning(unique: u64, sent: Result<(), IoError>) -> Option<u64> {
    match sent {
        Ok(_) => None,
        Err(e) => if e.os_errno() == Some(ENOENT) {
            None
        } else {
            Some(unique)
        },
    }
}

/// How the transfer ended, in the words of the metrics.
pub open spec fn write_outcome(sent: Result<(), IoError>) -> WriteOutcome {
    match sent {
        Ok(_) => WriteOutcome::Success,
        Err(e) => WriteOutcome::Failed { errno: e.os_errno() },
    }
}

/// What is recorded of a delivery whose transfer ended with `sent`, by a sender
/// that reports its liveness or does not.
pub open spec fn report(delivery: DeliveryView, sent: Result<(), IoError>, live: bool) -> SendReport {
    match delivery {
        DeliveryView::Request {
            unique,
            labels,
            status,
            errno,
            unsupported_reason,
            response_bytes,
            ..
        } => SendReport {
            warn: warning(unique, sent),
            request: Some(
                RequestFinish {
                    labels,
                    op_status: status,
                    request_status: request_status(status, sent is Ok),
                    errno,
                    unsupported_reason,
                    response_bytes: response_bytes as usize,
                    write: write_outcome(sent),
                },
            ),
            notify: None,
            progress: live && sent is Ok,
        },
        DeliveryView::Notify { unique, code } => SendReport {
            warn: warning(unique, sent),
            request: None,
            notify: Some(NotifyResult { code, success: sent is Ok }),
            progress: live && sent is Ok,
        },
        DeliveryView::Plain { unique } => SendReport {
            warn: warning(unique, sent),
            request: None,
            notify: None,
            progress: false,
        },
    }
}

/// The gauges after a delivery ended.
pub open spec fn settled(levels: Seq<i64>, delivery: DeliveryView) -> Seq<i64> {
    match delivery {
        DeliveryView::Request { active, .. } => lowered_opt(levels, active),
        _ => levels,
    }
}

/// What a splice of `len` bytes does next.
pub open spec fn splice_step(enabled: bool, len: u32, progress: SpliceProgress) -> SpliceStep {
    if !enabled {
        SpliceStep::Fail(IoError::NoPipe)
    } else {
        match progress {
            SpliceProgress::Begin => SpliceStep::Fill(len as usize),
            SpliceProgress::Filled(Ok(_)) => SpliceStep::Move(len as usize),
            SpliceProgress::Moved(Ok(_)) => SpliceStep::Done,
            SpliceProgress::Filled(Err(e)) => SpliceStep::DrainThenFail(e),
            SpliceProgress::Moved(Err(e)) => SpliceStep::DrainThenFail(e),
        }
    }
}

/// Whether a drain reads on after a read that ended so: as long as bytes come,
/// and after an interruption.
pub open spec fn drain_step(read: Result<usize, IoError>) -> DrainStep {
    match read {
        Ok(n) => if n > 0 {
            DrainStep::Continue
        } else {
            DrainStep::Stop
        },
        Err(e) => if e.os_errno() == Some(EINTR) {
            DrainStep::Continue
        } else {
            DrainStep::Stop
        },
    }
}

impl<T, R> FuseSender<T, R> {
    /// A sender, and whether it reports its liveness at once: it does if metrics
    /// are kept.
    pub fn new(fs: T, rt: R, debug: bool, enable_splice: bool, metrics_enabled: bool) -> (r: (
        FuseSender<T, R>,
        bool,
    ))
        ensures
            r.0 == (FuseSender {
                fs,
                rt,
                splice_enabled: enable_splice,
                debug,
                progress: metrics_enabled,
            }),
            r.1 == metrics_enabled,
    {
        let sender = FuseSender {
            fs,
            rt,
            splice_enabled: enable_splice,
            debug,
            progress: metrics_enabled,
        };
        (sender, metrics_enabled)
    }

    /// The runtime that the sender runs on.
    pub fn rt(&self) -> (r: &R)
        ensures
            *r == self.rt,
    {
        &self.rt
    }

    /// Takes a task off the queue: its unit of the queue gauge is given back
    /// before any transfer. Returns the frame to transfer and what to remember.
    pub fn start(&self, gauges: &mut Gauges, task: FuseTask) -> (r: (ResponseData, Delivery))
        ensures
            final(gauges)@ == dequeued(old(gauges)@, task@),
            r.0@ == task_frame(task@),
            r.1@ == delivery_of(task@),
    {
        match task {
            FuseTask::RequestReply {
                data,
                labels,
                active,
                status,
                errno,
                unsupported_reason,
                queue_guard,
            } => {
                mark_dequeued(queue_guard, gauges);
                let unique: u64 = data.header.unique;
                let response_bytes: usize = data.len();
                let delivery = Delivery::Request {
                    unique,
                    labels,
                    active,
                    status,
                    errno,
                    unsupported_reason,
                    response_bytes,
                };
                (data, delivery)
            },
            FuseTask::NotifyReply { data, code, queue_guard } => {
                mark_dequeued(queue_guard, gauges);
                let unique: u64 = data.header.unique;
                (data, Delivery::Notify { unique, code })
            },
            FuseTask::Reply(data) => {
                let unique: u64 = data.header.unique;
                (data, Delivery::Plain { unique })
            },
        }
    }

    /// Says what is recorded of a delivery whose transfer ended with `sent`. A failed
    /// transfer makes the request an error and leaves the operation's status alone.
    /// The request is still active: it is recorded, then [`settle`]d, and the
    /// sender's liveness is reported last.
    pub fn finish(&self, delivery: &Delivery, sent: Result<(), IoError>) -> (r: SendReport)
        ensures
            r == report(delivery@, sent, self.progress),
    {
        let (delivered, os_errno): (bool, Option<i32>) = match &sent {
            Ok(_) => (true, None),
            Err(e) => (false, e.raw_os_error()),
        };
        let gone: bool = match os_errno {
            Some(errno) => errno == ENOENT,
            None => false,
        };
        let worth_warning: bool = !delivered && !gone;
        match delivery {
            Delivery::Request {
                unique,
                labels,
                active: _,
                status,
                errno,
                unsupported_reason,
                response_bytes,
            } => {
                let (request_status, write) = if delivered {
                    (*status, WriteOutcome::Success)
                } else {
                    (FuseReqStatus::Error, WriteOutcome::Failed { errno: os_errno })
                };
                SendReport {
                    warn: if worth_warning {
                        Some(*unique)
                    } else {
                        None
                    },
                    request: Some(
                        RequestFinish {
                            labels: *labels,
                            op_status: *status,
                            request_status,
                            errno: *errno,
                            unsupported_reason: *unsupported_reason,
                            response_bytes: *response_bytes,
                            write,
                        },
                    ),
                    notify: None,
                    progress: self.progress && delivered,
                }
            },
            Delivery::Notify { unique, code } => SendReport {
                warn: if worth_warning {
                    Some(*unique)
                } else {
                    None
                },
                request: None,
                notify: Some(NotifyResult { code: *code, success: delivered }),
                progress: self.progress && delivered,
            },
            Delivery::Plain { unique } => SendReport {
                warn: if worth_warning {
                    Some(*unique)
                } else {
                    None
                },
                request: None,
                notify: None,
                progress: false,
            },
        }
    }

    /// Picks the transfer of a reply: splice if there is a pipe and the reply is
    /// large, else write.
    pub fn send(&self, rep: &ResponseData) -> (r: SendPlan)
        ensures
            r.log == self.debug,
            r.path == if self.splice_enabled && rep@.header.len >= SPLICE_THRESHOLD {
                SendPath::Splice
            } else {
                SendPath::Write
            },
    {
        let path = if self.splice_enabled && rep.len() >= SPLICE_THRESHOLD {
            SendPath::Splice
        } else {
            SendPath::Write
        };
        SendPlan { log: self.debug, path }
    }

    /// Judges a write of a reply that moved `written` bytes: it has to be the
    /// whole reply.
    pub fn write(&self, rep: &ResponseData, written: usize) -> (r: Result<(), IoError>)
        ensures
            r == if written == rep@.header.len {
                Ok(())
            } else {
                Err(IoError::ShortWrite { written, len: rep@.header.len as usize })
            },
    {
        let len: usize = rep.len();
        if written != len {
            return Err(IoError::ShortWrite { written, len });
        }
        Ok(())
    }

    /// Says what the splice of a reply does next: fill the pipe, move it to the
    /// kernel, done. A failure on the way drains the pipe first, so that no stale
    /// bytes go out in front of the next reply.
    pub fn splice(&self, rep: &ResponseData, progress: SpliceProgress) -> (r: SpliceStep)
        ensures
            r == splice_step(self.splice_enabled, rep@.header.len, progress),
    {
        if !self.splice_enabled {
            return SpliceStep::Fail(IoError::NoPipe);
        }
        let len: usize = rep.len();
        match progress {
            SpliceProgress::Begin => SpliceStep::Fill(len),
            SpliceProgress::Filled(Ok(_)) => SpliceStep::Move(len),
            SpliceProgress::Moved(Ok(_)) => SpliceStep::Done,
            SpliceProgress::Filled(Err(e)) => SpliceStep::DrainThenFail(e),
            SpliceProgress::Moved(Err(e)) => SpliceStep::DrainThenFail(e),
        }
    }

    /// Says whether the drain of a pipe reads on after a read that ended so. It
    /// stops when the pipe is empty or closed and on any error but an
    /// interruption.
    pub fn drain_pipe(read: Result<usize, IoError>) -> (r: DrainStep)
        ensures
            r == drain_step(read),
    {
        match read {
            Ok(n) => if n > 0 {
                DrainStep::Continue
            } else {
                DrainStep::Stop
            },
            Err(e) => match e.raw_os_error() {
                Some(errno) => if errno == EINTR {
                    DrainStep::Continue
                } else {
                    DrainStep::Stop
                },
                None => DrainStep::Stop,
            },
        }
    }
}

/// Ends a delivery once it was recorded: the request's unit of the active gauge, if
/// it holds one, is given back.
pub fn settle(gauges: &mut Gauges, delivery: Delivery)
    ensures
        final(gauges)@ == settled(old(gauges)@, delivery@),
{
    match delivery {
        Delivery::Request { active, .. } => release_opt(active, gauges),
        Delivery::Notify { .. } | Delivery::Plain { .. } => {},
    }
}

/// Gives back the unit of the queue gauge that a task held while it waited. A
/// task without one changes nothing.
pub fn mark_dequeued(queue_guard: Option<ActiveGuard>, gauges: &mut Gauges)
    ensures
        old(gauges)@.len() == 8,
        final(gauges)@ == lowered_opt(old(gauges)@, guard_view(queue_guard)),
{
    release_opt(queue_guard, gauges);
}

} // verus!
