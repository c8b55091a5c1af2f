//! The receiver: takes requests from the kernel, routes them and dispatches them.
//!
//! 1. Requests come in through a splice or a plain read
//!    ([`FuseReceiver::receive`]).
//! 2. Each outcome of a receive is one event of the loop
//!    ([`FuseReceiver::start`]).
//! 3. A stream request is dispatched in place ([`FuseReceiver::send_stream`]), a
//!    metadata request in a task of its own ([`FuseReceiver::submit_meta`],
//!    [`FuseReceiver::dispatch_meta_interrupt`], [`FuseReceiver::dispatch_meta`]).
use vstd::prelude::*;
use bytes::BytesMut;
use crate::buffer::contents;
use crate::buffer::{as_mut_slice, split_to, zeroed};
use crate::errno::{FuseError, IoError, SessionError, EAGAIN, EINTR, ENODEV, ENOENT, ENOSYS};
use crate::metrics::{dispatch_io, guard_view, lifecycle_io, lowered_opt, raised, raised_opt};
use crate::metrics::{
    dispatch_io_type, lifecycle_io_type, release_opt, ActiveGuard, FuseReqKind, FuseReqLabels,
    FuseReqStatus, GaugeId, Gauges, IoType, UnsupportedReason,
};
use crate::pending::{let_go, GuardView};
use crate::pending::{Notifier, PendingRequestGuard, PendingRequests};
use crate::request::{FuseOpCode, FuseOperator, FuseRequest};
use crate::response::{
    answer, op_status, result_errno, result_view, sendable, silent_finish, silent_labels,
    task_view, ResponseView, TaskView,
};
use crate::response::{EarlyFinish, FuseResponse, FuseTask, NoReplyFinish};

verus! {

/// Bytes of a request header on the wire: no request is shorter.
pub const FUSE_IN_HEADER_LEN: usize = 40;

/// The label of a receive error that the loop survives.
pub const RECEIVE_ACTION_CONTINUE: &'static str = "continue";

/// The label of a receive error that ends the loop.
pub const RECEIVE_ACTION_EXIT: &'static str = "exit";

/// The label of an error that has no name of its own.
pub const REASON_OTHER: &'static str = "other";

/// The receiver's buffer and settings.
pub struct FuseReceiver {
    buf: BytesMut,
    fuse_len: usize,
    splice_enabled: bool,
    debug: bool,
    audit_logging_enabled: bool,
    metrics_enabled: bool,
}

/// A receiver as a value.
pub struct ReceiverView {
    /// What the buffer holds.
    pub buffer: Seq<u8>,
    /// The most that one request can take.
    pub fuse_len: usize,
    /// Whether the receiver has a pipe to splice through.
    pub splice_enabled: bool,
    /// Whether requests are logged.
    pub debug: bool,
    /// Whether metadata requests are audited.
    pub audit_logging_enabled: bool,
    /// Whether metrics are kept.
    pub metrics_enabled: bool,
}

impl View for FuseReceiver {
    type V = ReceiverView;

    closed spec fn view(&self) -> ReceiverView {
        ReceiverView {
            buffer: contents(self.buf),
            fuse_len: self.fuse_len,
            splice_enabled: self.splice_enabled,
            debug: self.debug,
            audit_logging_enabled: self.audit_logging_enabled,
            metrics_enabled: self.metrics_enabled,
        }
    }
}

impl ReceiverView {
    /// The buffer can be allocated.
    pub open spec fn wf(self) -> bool {
        self.fuse_len <= isize::MAX
    }
}

/// How a request comes in.
#[derive(Clone, Copy, Debug, PartialEq, Eq, Structural)]
pub enum ReceivePath {
    Splice,
    Read,
}

/// `n` zero bytes.
pub open spec fn zeros(n: nat) -> Seq<u8> {
    Seq::new(n, |i: int| 0u8)
}

impl FuseReceiver {
    /// A receiver whose buffer holds `buf_size` bytes.
    pub fn new(
        buf_size: usize,
        debug: bool,
        audit_logging_enabled: bool,
        metrics_enabled: bool,
        enable_splice: bool,
    ) -> (r: FuseReceiver)
        requires
            buf_size <= isize::MAX,
        ensures
            r@ == (ReceiverView {
                buffer: zeros(buf_size as nat),
                fuse_len: buf_size,
                splice_enabled: enable_splice,
                debug,
                audit_logging_enabled,
                metrics_enabled,
            }),
            r@.wf(),
    {
        let buf = zeroed(buf_size);
        FuseReceiver {
            buf,
            fuse_len: buf_size,
            splice_enabled: enable_splice,
            debug,
            audit_logging_enabled,
            metrics_enabled,
        }
    }

    /// Whether metrics are kept.
    pub fn is_metered(&self) -> (r: bool)
        ensures
            r == self@.metrics_enabled,
    {
        self.metrics_enabled
    }

    /// The most that one request can take.
    pub fn fuse_len(&self) -> (r: usize)
        ensures
            r == self@.fuse_len,
    {
        self.fuse_len
    }

    /// Picks the way requests come in: a splice if there is a pipe.
    pub fn receive(&self) -> (r: ReceivePath)
        ensures
            r == if self@.splice_enabled {
                ReceivePath::Splice
            } else {
                ReceivePath::Read
            },
    {
        if self.splice_enabled {
            ReceivePath::Splice
        } else {
            ReceivePath::Read
        }
    }

    /// Readies the buffer for a read of one request. It is a new one: whether the old
    /// one can grow in place depends on room that it does not show.
    pub fn prepare_read(&mut self)
        requires
            old(self)@.wf(),
        ensures
            final(self)@ == (ReceiverView {
                buffer: zeros(old(self)@.fuse_len as nat),
                ..old(self)@
            }),
    {
        self.buf = zeroed(self.fuse_len);
    }

    /// Readies the buffer for the `write_len` bytes that wait in the pipe.
    pub fn prepare_splice(&mut self, write_len: usize)
        requires
            write_len <= isize::MAX,
        ensures
            final(self)@ == (ReceiverView { buffer: zeros(write_len as nat), ..old(self)@ }),
    {
        self.buf = zeroed(write_len);
    }

    /// The buffer, for the transfer to fill.
    pub fn buffer_mut(&mut self) -> (r: &mut [u8])
        ensures
            r@ == old(self)@.buffer,
            final(r)@.len() == r@.len(),
            final(self)@ == (ReceiverView { buffer: final(r)@, ..old(self)@ }),
    {
        as_mut_slice(&mut self.buf)
    }

    /// Takes the request out of the buffer after a read of `len` bytes: the bytes
    /// that were read, if they are at least a header.
    pub fn read(&mut self, len: usize) -> (r: Result<BytesMut, IoError>)
        requires
            len <= old(self)@.buffer.len(),
        ensures
            match r {
                Ok(request) => {
                    &&& len >= FUSE_IN_HEADER_LEN
                    &&& contents(request) == old(self)@.buffer.take(len as int)
                    &&& final(self)@ == (ReceiverView {
                        buffer: old(self)@.buffer.skip(len as int),
                        ..old(self)@
                    })
                },
                Err(e) => {
                    &&& len < FUSE_IN_HEADER_LEN
                    &&& e == IoError::ShortRead
                    &&& final(self)@ == old(self)@
                },
            },
    {
        if len < FUSE_IN_HEADER_LEN {
            return Err(IoError::ShortRead);
        }
        Ok(split_to(&mut self.buf, len))
    }

    /// Takes the request out of the buffer after a splice that moved `write_len`
    /// bytes into the pipe and `read_len` bytes out of it: they have to be the
    /// same, and at least a header.
    pub fn splice(&mut self, write_len: usize, read_len: usize) -> (r: Result<BytesMut, IoError>)
        requires
            write_len <= old(self)@.buffer.len(),
        ensures
            match r {
                Ok(request) => {
                    &&& old(self)@.splice_enabled
                    &&& write_len == read_len
                    &&& read_len >= FUSE_IN_HEADER_LEN
                    &&& contents(request) == old(self)@.buffer.take(read_len as int)
                    &&& final(self)@ == (ReceiverView {
                        buffer: old(self)@.buffer.skip(read_len as int),
                        ..old(self)@
                    })
                },
                Err(e) => {
                    &&& final(self)@ == old(self)@
                    &&& if !old(self)@.splice_enabled {
                        e == IoError::NoPipe
                    } else if write_len != read_len {
                        e == (IoError::SpliceMismatch { write_len, read_len })
                    } else {
                        read_len < FUSE_IN_HEADER_LEN && e == IoError::ShortRead
                    }
                },
            },
    {
        if !self.splice_enabled {
            return Err(IoError::NoPipe);
        }
        if write_len != read_len {
            return Err(IoError::SpliceMismatch { write_len, read_len });
        }
        if read_len < FUSE_IN_HEADER_LEN {
            return Err(IoError::ShortRead);
        }
        Ok(split_to(&mut self.buf, read_len))
    }
}

/// The lower-case name of an error number of the receive path, as a value.
pub open spec fn splice_label(errno: i32) -> Seq<char> {
    if errno == ENOENT {
        "enoent"@
    } else if errno == EINTR {
        "eintr"@
    } else if errno == EAGAIN {
        "eagain"@
    } else if errno == ENODEV {
        "enodev"@
    } else {
        "other"@
    }
}

/// The lower-case name of an error number of the receive path.
pub fn splice_errno_label(errno: i32) -> (r: &'static str)
    ensures
        r@ == splice_label(errno),
{
    if errno == ENOENT {
        "enoent"
    } else if errno == EINTR {
        "eintr"
    } else if errno == EAGAIN {
        "eagain"
    } else if errno == ENODEV {
        "enodev"
    } else {
        REASON_OTHER
    }
}

/// Whether the loop goes on after a receive that failed with this error number.
pub open spec fn survives(os_errno: Option<i32>) -> bool {
    os_errno == Some(ENOENT) || os_errno == Some(EINTR) || os_errno == Some(EAGAIN)
}

/// The name of the error of a failed receive, as a value. An error without a
/// number is `other`.
pub open spec fn errno_label(os_errno: Option<i32>) -> Seq<char> {
    match os_errno {
        Some(errno) => splice_label(errno),
        None => "other"@,
    }
}

/// The label that says whether the loop goes on after a failed receive, as a value.
pub open spec fn action_label(os_errno: Option<i32>) -> Seq<char> {
    if survives(os_errno) {
        "continue"@
    } else {
        "exit"@
    }
}

/// The labels of a failed receive: the name of the error, and whether the loop
/// goes on. An error without a number is `other` and ends the loop.
pub fn receive_error_labels(os_errno: Option<i32>) -> (r: (&'static str, &'static str))
    ensures
        r.0@ == errno_label(os_errno),
        r.1@ == action_label(os_errno),
{
    match os_errno {
        Some(errno) => {
            let action = if errno == ENOENT || errno == EINTR || errno == EAGAIN {
                RECEIVE_ACTION_CONTINUE
            } else {
                RECEIVE_ACTION_EXIT
            };
            (splice_errno_label(errno), action)
        },
        None => (splice_errno_label(0), RECEIVE_ACTION_EXIT),
    }
}

/// The labels that a request is counted under.
pub open spec fn labels_of(req: FuseRequest) -> FuseReqLabels {
    FuseReqLabels {
        opcode: req.opcode,
        kind: if req.stream() {
            FuseReqKind::Stream
        } else {
            FuseReqKind::Metadata
        },
        request_bytes: req.byte_len(),
    }
}

/// The labels where metrics are kept, else nothing.
pub open spec fn gated_labels(metrics_enabled: bool, req: FuseRequest) -> Option<FuseReqLabels> {
    if metrics_enabled {
        Some(labels_of(req))
    } else {
        None
    }
}

/// The gauge of the request family, where metrics are kept.
pub open spec fn active_gauge(metrics_enabled: bool, req: FuseRequest) -> Option<GaugeId> {
    if metrics_enabled {
        Some(labels_of(req).kind.gauge())
    } else {
        None
    }
}

/// One line of the audit log.
#[derive(Clone, Copy, Debug, PartialEq, Eq, Structural)]
pub struct AuditRecord {
    pub unique: u64,
    pub ino: u64,
    pub opcode: FuseOpCode,
}

impl FuseReceiver {
    /// The reply handle of request `unique`. With labels it is metered and holds a
    /// unit of the gauge of their kind.
    pub fn new_reply(
        &self,
        gauges: &mut Gauges,
        unique: u64,
        labels: Option<FuseReqLabels>,
    ) -> (r: FuseResponse)
        ensures
            r@ == ResponseView::fresh(unique, self@.debug, labels),
            r@.wf(),
            match labels {
                Some(labels) => final(gauges)@ == raised(old(gauges)@, labels.kind.gauge()),
                None => final(gauges)@ == old(gauges)@,
            },
    {
        FuseResponse::new_reply(gauges, unique, self.debug, labels)
    }

    /// The labels that a request is counted under.
    pub fn req_labels(req: &FuseRequest) -> (r: FuseReqLabels)
        ensures
            r == labels_of(*req),
    {
        let kind = if req.is_stream() {
            FuseReqKind::Stream
        } else {
            FuseReqKind::Metadata
        };
        let request_bytes: u32 = match &req.header {
            Some(h) => h.len,
            None => 0,
        };
        FuseReqLabels { opcode: req.opcode, kind, request_bytes }
    }

    /// The switch of all request metrics: labels if metrics are kept, else nothing.
    pub fn maybe_req_labels(&self, req: &FuseRequest) -> (r: Option<FuseReqLabels>)
        ensures
            r == gated_labels(self@.metrics_enabled, *req),
    {
        if self.metrics_enabled {
            Some(Self::req_labels(req))
        } else {
            None
        }
    }

    /// The audit line of a request, if auditing is on.
    pub fn audit(&self, req: &FuseRequest) -> (r: Option<AuditRecord>)
        ensures
            r == if self@.audit_logging_enabled {
                Some(AuditRecord { unique: req.unique, ino: req.inode(), opcode: req.opcode })
            } else {
                None
            },
    {
        if !self.audit_logging_enabled {
            return None;
        }
        let ino: u64 = match &req.header {
            Some(h) => h.nodeid,
            None => 0,
        };
        Some(AuditRecord { unique: req.unique, ino, opcode: req.opcode })
    }
}

/// What a stream dispatch times: nothing without metrics, else the dispatch
/// latency of a read or write, or the lifecycle of a flush, fsync or release.
pub struct StreamScope {
    pub dispatch: Option<IoType>,
    pub lifecycle: Option<IoType>,
    /// The unit of the lifecycle's in-flight gauge.
    pub inflight: Option<ActiveGuard>,
}

/// A stream scope as a value.
pub struct ScopeView {
    pub dispatch: Option<IoType>,
    pub lifecycle: Option<IoType>,
    pub inflight: Option<GaugeId>,
}

impl View for StreamScope {
    type V = ScopeView;

    open spec fn view(&self) -> ScopeView {
        ScopeView {
            dispatch: self.dispatch,
            lifecycle: self.lifecycle,
            inflight: guard_view(self.inflight),
        }
    }
}

/// The in-flight gauge of a lifecycle.
pub open spec fn inflight_gauge(io: IoType) -> Option<GaugeId> {
    match io {
        IoType::Flush => Some(GaugeId::FlushInflight),
        IoType::Fsync => Some(GaugeId::FsyncInflight),
        IoType::Release => Some(GaugeId::ReleaseInflight),
        _ => None,
    }
}

/// The scope of a stream dispatch of `opcode`.
pub open spec fn scope_of(metered: bool, opcode: FuseOpCode) -> ScopeView {
    if metered {
        ScopeView {
            dispatch: dispatch_io(opcode),
            lifecycle: lifecycle_io(opcode),
            inflight: match lifecycle_io(opcode) {
                Some(io) => inflight_gauge(io),
                None => None,
            },
        }
    } else {
        ScopeView { dispatch: None, lifecycle: None, inflight: None }
    }
}

impl StreamScope {
    /// Opens the scope of a stream dispatch of `opcode`: a lifecycle counts as
    /// attempted and is in flight from here on.
    pub fn open(gauges: &mut Gauges, metered: bool, opcode: FuseOpCode) -> (r: StreamScope)
        ensures
            r@ == scope_of(metered, opcode),
            final(gauges)@ == raised_opt(old(gauges)@, scope_of(metered, opcode).inflight),
    {
        if !metered {
            return StreamScope { dispatch: None, lifecycle: None, inflight: None };
        }
        let dispatch = dispatch_io_type(opcode);
        let lifecycle = lifecycle_io_type(opcode);
        let inflight = match lifecycle {
            Some(IoType::Flush) => Some(ActiveGuard::new(gauges, GaugeId::FlushInflight)),
            Some(IoType::Fsync) => Some(ActiveGuard::new(gauges, GaugeId::FsyncInflight)),
            Some(IoType::Release) => Some(ActiveGuard::new(gauges, GaugeId::ReleaseInflight)),
            _ => None,
        };
        StreamScope { dispatch, lifecycle, inflight }
    }

}

/// What is left to do when a stream dispatch has ended.
#[derive(Clone, Copy, Debug)]
pub struct StreamEnd {
    /// The family whose dispatch latency is observed.
    pub dispatch: Option<IoType>,
    /// The family whose lifecycle duration is observed.
    pub lifecycle: Option<IoType>,
    pub result: Result<(), SessionError>,
}

/// The result of a dispatch whose answer was queued with outcome `sent`.
pub open spec fn dispatch_result(sent: Result<(), IoError>) -> Result<(), SessionError> {
    match sent {
        Ok(_) => Ok(()),
        Err(e) => Err(SessionError::Io(e)),
    }
}

fn session_result(sent: Result<(), IoError>) -> (r: Result<(), SessionError>)
    ensures
        r == dispatch_result(sent),
{
    match sent {
        Ok(_) => Ok(()),
        Err(e) => Err(SessionError::Io(e)),
    }
}

/// What a stream dispatch does once the request body was parsed.
pub enum StreamAction {
    /// The body did not parse: the dispatch fails with `err`, and nothing is sent.
    Reject { err: FuseError, early: Option<EarlyFinish> },
    /// Call the file system, which answers through the reply handle; report its
    /// result to [`FuseReceiver::finish_stream`].
    Call { operator: FuseOperator, scope: StreamScope },
    /// The operation does not belong here: queue the answer.
    Unsupported { task: Option<FuseTask>, scope: StreamScope },
}

/// Whether an operator is served by the stream dispatch.
pub open spec fn stream_operator(op: FuseOperator) -> bool {
    op == FuseOperator::Read || op == FuseOperator::Write || op == FuseOperator::Flush || op
        == FuseOperator::Release || op == FuseOperator::FSync
}

/// The answer to an operation that is not offered.
pub open spec fn unsupported_answer(
    r: ResponseView,
    levels: Seq<i64>,
    reason: UnsupportedReason,
) -> (ResponseView, Seq<i64>, Option<TaskView>) {
    answer(r, levels, Err(FuseError { errno: ENOSYS }), Some(reason), false)
}

/// The early finish of a request whose body did not parse.
pub open spec fn parse_reject(r: ResponseView, err: FuseError) -> Option<EarlyFinish> {
    match silent_labels(r) {
        Some(labels) => Some(EarlyFinish { labels, errno: err.errno, reason: REASON_OTHER }),
        None => None,
    }
}

/// What a stream dispatch of `req` whose body parsed to `parsed` does to the reply
/// handle and the gauges, and what it asks for.
pub open spec fn stream_dispatched(
    req: FuseRequest,
    parsed: Result<FuseOperator, FuseError>,
    r: ResponseView,
    levels: Seq<i64>,
    r2: ResponseView,
    levels2: Seq<i64>,
    action: StreamAction,
) -> bool {
    let scope_levels = raised_opt(levels, scope_of(r.metered(), req.opcode).inflight);
    match parsed {
        Err(err) => {
            &&& (r2, levels2) == silent_finish(r, levels, None)
            &&& action == (StreamAction::Reject { err, early: parse_reject(r, err) })
        },
        Ok(op) => if stream_operator(op) {
            &&& r2 == r
            &&& levels2 == scope_levels
            &&& action matches StreamAction::Call { operator, scope }
            &&& operator == op
            &&& scope@ == scope_of(r.metered(), req.opcode)
        } else {
            &&& action matches StreamAction::Unsupported { task, scope }
            &&& (r2, levels2, task_view(task)) == unsupported_answer(
                r,
                scope_levels,
                UnsupportedReason::UnimplementedOpcode,
            )
            &&& scope@ == scope_of(r.metered(), req.opcode)
        },
    }
}

/// The answer that is still owed when a stream operation returned `result`: a
/// failure is answered, a success was.
pub open spec fn stream_finish(
    r: ResponseView,
    levels: Seq<i64>,
    result: Result<(), FuseError>,
) -> (ResponseView, Seq<i64>, Option<TaskView>) {
    match result {
        Ok(_) => (r, levels, None),
        Err(e) => answer(r, levels, Err(e), None, false),
    }
}

impl FuseReceiver {
    /// Dispatches a stream request whose body parsed to `parsed`. The reply handle
    /// is made first, so that a body that does not parse finishes it.
    pub fn send_stream(
        &self,
        gauges: &mut Gauges,
        req: &FuseRequest,
        parsed: Result<FuseOperator, FuseError>,
    ) -> (r: (FuseResponse, StreamAction))
        ensures
            stream_dispatched(
                *req,
                parsed,
                ResponseView::fresh(
                    req.unique,
                    self@.debug,
                    gated_labels(self@.metrics_enabled, *req),
                ),
                raised_opt(old(gauges)@, active_gauge(self@.metrics_enabled, *req)),
                r.0@,
                final(gauges)@,
                r.1,
            ),
    {
        let labels = self.maybe_req_labels(req);
        let mut rep = self.new_reply(gauges, req.unique, labels);
        let action = Self::send_stream_dispatch(gauges, req, parsed, &mut rep);
        (rep, action)
    }

    /// Dispatches a stream request with the reply handle `rep`, whose metrics
    /// decide whether anything is timed or counted. Scopes are opened after the
    /// body parsed and before anything is called, so they cover the call and the
    /// answer to its failure.
    pub fn send_stream_dispatch(
        gauges: &mut Gauges,
        req: &FuseRequest,
        parsed: Result<FuseOperator, FuseError>,
        rep: &mut FuseResponse,
    ) -> (action: StreamAction)
        ensures
            stream_dispatched(
                *req,
                parsed,
                old(rep)@,
                old(gauges)@,
                final(rep)@,
                final(gauges)@,
                action,
            ),
    {
        let metered: bool = rep.is_metered();
        let operator = match parsed {
            Ok(op) => op,
            Err(err) => {
                let early = rep.finish_early(gauges, err.errno, REASON_OTHER);
                return StreamAction::Reject { err, early };
            },
        };
        let scope = StreamScope::open(gauges, metered, req.opcode);
        match operator {
            FuseOperator::Read
            | FuseOperator::Write
            | FuseOperator::Flush
            | FuseOperator::Release
            | FuseOperator::FSync => StreamAction::Call { operator, scope },
            FuseOperator::Notimplemented
            | FuseOperator::Init
            | FuseOperator::StatFs
            | FuseOperator::Access
            | FuseOperator::Lookup
            | FuseOperator::GetAttr
            | FuseOperator::SetAttr
            | FuseOperator::GetXAttr
            | FuseOperator::SetXAttr
            | FuseOperator::RemoveXAttr
            | FuseOperator::ListXAttr
            | FuseOperator::OpenDir
            | FuseOperator::Mkdir
            | FuseOperator::FAllocate
            | FuseOperator::ReleaseDir
            | FuseOperator::ReadDir
            | FuseOperator::ReadDirPlus
            | FuseOperator::Forget
            | FuseOperator::Open
            | FuseOperator::MkNod
            | FuseOperator::Create
            | FuseOperator::Unlink
            | FuseOperator::RmDir
            | FuseOperator::Link
            | FuseOperator::BatchForget
            | FuseOperator::Rename
            | FuseOperator::Rename2
            | FuseOperator::FSyncDir
            | FuseOperator::Destroy
            | FuseOperator::Interrupt { .. }
            | FuseOperator::Symlink
            | FuseOperator::Readlink
            | FuseOperator::GetLk
            | FuseOperator::SetLk
            | FuseOperator::SetLkW => {
                let task = rep.send_rep_tagged(
                    gauges,
                    Err(FuseError { errno: ENOSYS }),
                    Some(UnsupportedReason::UnimplementedOpcode),
                    false,
                );
                StreamAction::Unsupported { task, scope }
            },
        }
    }

    /// Answers for a stream operation that returned `result`. A failure is answered
    /// through the shared handle, which drops the answer if the operation gave one
    /// before it failed.
    pub fn finish_stream(
        gauges: &mut Gauges,
        rep: &mut FuseResponse,
        result: Result<(), FuseError>,
    ) -> (task: Option<FuseTask>)
        requires
            result matches Err(e) ==> e.errno > i32::MIN,
        ensures
            (final(rep)@, final(gauges)@, task_view(task)) == stream_finish(
                old(rep)@,
                old(gauges)@,
                result,
            ),
    {
        match result {
            Ok(_) => None,
            Err(e) => rep.send_rep(gauges, Err(e)),
        }
    }

    /// Ends a stream dispatch. `sent` is the outcome of queueing the answer, and
    /// `Ok` where there was none to queue. The scope is closed, so that what it
    /// timed is observed once and what it held in flight no longer is.
    pub fn conclude_stream(
        gauges: &mut Gauges,
        scope: StreamScope,
        sent: Result<(), IoError>,
    ) -> (end: StreamEnd)
        ensures
            end.dispatch == scope@.dispatch,
            end.lifecycle == scope@.lifecycle,
            end.result == dispatch_result(sent),
            final(gauges)@ == lowered_opt(old(gauges)@, scope@.inflight),
    {
        release_opt(scope.inflight, gauges);
        StreamEnd {
            dispatch: scope.dispatch,
            lifecycle: scope.lifecycle,
            result: session_result(sent),
        }
    }
}

/// How a metadata operation is answered.
#[derive(Clone, Copy, Debug, PartialEq, Eq, Structural)]
pub enum ReplyForm {
    /// With a reply structure.
    Rep,
    /// With a buffer of bytes.
    Buf,
    /// Not at all.
    NoReply,
}

/// Where a metadata operator goes.
#[derive(Clone, Copy, Debug, PartialEq, Eq, Structural)]
pub enum MetaRoute {
    /// To the file system, to be answered so.
    Serve(ReplyForm),
    /// To whoever waits under this request number.
    Interrupt(u64),
    /// Nowhere: it is not offered here.
    Unsupported,
}

/// Where a metadata operator goes, as a value.
pub open spec fn meta_route(op: FuseOperator) -> MetaRoute {
    match op {
        FuseOperator::Interrupt { unique } => MetaRoute::Interrupt(unique),
        FuseOperator::Forget | FuseOperator::BatchForget => MetaRoute::Serve(ReplyForm::NoReply),
        FuseOperator::GetXAttr
        | FuseOperator::ListXAttr
        | FuseOperator::ReadDir
        | FuseOperator::ReadDirPlus
        | FuseOperator::Readlink => MetaRoute::Serve(ReplyForm::Buf),
        FuseOperator::Notimplemented
        | FuseOperator::Read
        | FuseOperator::Write
        | FuseOperator::Flush
        | FuseOperator::Release
        | FuseOperator::FSync => MetaRoute::Unsupported,
        _ => MetaRoute::Serve(ReplyForm::Rep),
    }
}

/// What a metadata dispatch does once the request body was parsed.
pub enum MetaAction<'a, N> {
    /// The body did not parse: the dispatch fails with `err`, and nothing is sent.
    Reject { err: FuseError, early: Option<EarlyFinish> },
    /// Call the file system and report its result, with `form`, to
    /// [`FuseReceiver::complete_meta`].
    Call { operator: FuseOperator, form: ReplyForm },
    /// Wake the request that waits, and report success, without a reply, to
    /// [`FuseReceiver::complete_meta`].
    Notify(&'a Notifier<N>),
    /// The operation is not offered: queue the answer.
    Send(Option<FuseTask>),
}

/// Why an operator that is not offered is not: its opcode has no name, or it has
/// one and no implementation.
pub open spec fn unsupported_reason(opcode: FuseOpCode) -> UnsupportedReason {
    if opcode == FuseOpCode::NotSupported {
        UnsupportedReason::UnknownOpcode
    } else {
        UnsupportedReason::UnimplementedOpcode
    }
}

/// What a metadata dispatch of `req` whose body parsed to `parsed` does to the
/// reply handle and the gauges, and what it asks for, while `pending` waits.
pub open spec fn meta_dispatched<N>(
    pending: Map<u64, Notifier<N>>,
    req: FuseRequest,
    parsed: Result<FuseOperator, FuseError>,
    r: ResponseView,
    levels: Seq<i64>,
    r2: ResponseView,
    levels2: Seq<i64>,
    action: MetaAction<N>,
) -> bool {
    match parsed {
        Err(err) => {
            &&& (r2, levels2) == silent_finish(r, levels, None)
            &&& action matches MetaAction::Reject { err: err2, early }
            &&& err2 == err
            &&& early == parse_reject(r, err)
        },
        Ok(op) => match meta_route(op) {
            MetaRoute::Serve(form) => {
                &&& (r2, levels2) == (r, levels)
                &&& action matches MetaAction::Call { operator, form: form2 }
                &&& operator == op
                &&& form2 == form
            },
            MetaRoute::Interrupt(unique) => {
                &&& (r2, levels2) == (r, levels)
                &&& if pending.contains_key(unique) {
                    action matches MetaAction::Notify(notifier) && *notifier == pending[unique]
                } else {
                    &&& action matches MetaAction::Call { operator, form }
                    &&& operator == op
                    &&& form == ReplyForm::NoReply
                }
            },
            MetaRoute::Unsupported => {
                &&& action matches MetaAction::Send(task)
                &&& (r2, levels2, task_view(task)) == unsupported_answer(
                    r,
                    levels,
                    unsupported_reason(req.opcode),
                )
            },
        },
    }
}

/// What the answer to a metadata operation leaves behind.
pub struct MetaReply {
    /// The task to queue, if a reply is owed.
    pub task: Option<FuseTask>,
    /// The finish to record, if no reply is expected.
    pub silent: Option<NoReplyFinish>,
}

/// The handle and the gauges after the answer to a metadata operation, and the
/// task that carries it.
pub open spec fn meta_completed(
    r: ResponseView,
    levels: Seq<i64>,
    form: ReplyForm,
    result: Result<Seq<u8>, FuseError>,
) -> (ResponseView, Seq<i64>, Option<TaskView>) {
    if form == ReplyForm::NoReply {
        let (r2, levels2) = silent_finish(
            r,
            levels,
            Some(op_status(result is Err, None, false)),
        );
        (r2, levels2, None)
    } else {
        answer(r, levels, result, None, false)
    }
}

/// One sample of the operation latency.
#[derive(Clone, Copy, Debug, PartialEq, Eq, Structural)]
pub struct OperationSample {
    pub opcode: FuseOpCode,
    pub status: FuseReqStatus,
    /// Whether the operation left no status behind and is counted as an error for
    /// that.
    pub missing_status: bool,
}

/// The sample of an operation: none without metrics, else one with the status that
/// the operation's answer left in the handle.
pub open spec fn operation_sample(r: ResponseView, opcode: FuseOpCode) -> Option<OperationSample> {
    match r.metrics {
        Some(slot) => Some(
            match slot.op_status {
                Some(status) => OperationSample { opcode, status, missing_status: false },
                None => OperationSample {
                    opcode,
                    status: FuseReqStatus::Error,
                    missing_status: true,
                },
            },
        ),
        None => None,
    }
}

impl FuseReceiver {
    /// Dispatches a metadata request whose body parsed to `parsed`. `pending` is who
    /// waits to be interrupted.
    pub fn dispatch_meta<'a, N>(
        pending: &'a PendingRequests<N>,
        gauges: &mut Gauges,
        req: &FuseRequest,
        parsed: Result<FuseOperator, FuseError>,
        reply: &mut FuseResponse,
    ) -> (action: MetaAction<'a, N>)
        ensures
            meta_dispatched(
                pending@,
                *req,
                parsed,
                old(reply)@,
                old(gauges)@,
                final(reply)@,
                final(gauges)@,
                action,
            ),
    {
        let operator = match parsed {
            Ok(op) => op,
            Err(err) => {
                let early = reply.finish_early(gauges, err.errno, REASON_OTHER);
                return MetaAction::Reject { err, early };
            },
        };
        match Self::route_meta(operator) {
            MetaRoute::Serve(form) => MetaAction::Call { operator, form },
            MetaRoute::Interrupt(unique) => match pending.get(unique) {
                Some(notifier) => MetaAction::Notify(notifier),
                None => MetaAction::Call { operator, form: ReplyForm::NoReply },
            },
            MetaRoute::Unsupported => {
                let reason = if req.opcode == FuseOpCode::NotSupported {
                    UnsupportedReason::UnknownOpcode
                } else {
                    UnsupportedReason::UnimplementedOpcode
                };
                let task = reply.send_rep_tagged(
                    gauges,
                    Err(FuseError { errno: ENOSYS }),
                    Some(reason),
                    false,
                );
                MetaAction::Send(task)
            },
        }
    }

    /// Where a metadata operator goes. Every operator is named, so one that is
    /// added does not fall through.
    pub fn route_meta(operator: FuseOperator) -> (r: MetaRoute)
        ensures
            r == meta_route(operator),
    {
        match operator {
            FuseOperator::Init => MetaRoute::Serve(ReplyForm::Rep),
            FuseOperator::StatFs => MetaRoute::Serve(ReplyForm::Rep),
            FuseOperator::Access => MetaRoute::Serve(ReplyForm::Rep),
            FuseOperator::Lookup => MetaRoute::Serve(ReplyForm::Rep),
            FuseOperator::GetAttr => MetaRoute::Serve(ReplyForm::Rep),
            FuseOperator::SetAttr => MetaRoute::Serve(ReplyForm::Rep),
            FuseOperator::GetXAttr => MetaRoute::Serve(ReplyForm::Buf),
            FuseOperator::SetXAttr => MetaRoute::Serve(ReplyForm::Rep),
            FuseOperator::RemoveXAttr => MetaRoute::Serve(ReplyForm::Rep),
            FuseOperator::ListXAttr => MetaRoute::Serve(ReplyForm::Buf),
            FuseOperator::OpenDir => MetaRoute::Serve(ReplyForm::Rep),
            FuseOperator::Mkdir => MetaRoute::Serve(ReplyForm::Rep),
            FuseOperator::FAllocate => MetaRoute::Serve(ReplyForm::Rep),
            FuseOperator::ReleaseDir => MetaRoute::Serve(ReplyForm::Rep),
            FuseOperator::ReadDir => MetaRoute::Serve(ReplyForm::Buf),
            FuseOperator::ReadDirPlus => MetaRoute::Serve(ReplyForm::Buf),
            FuseOperator::Forget => MetaRoute::Serve(ReplyForm::NoReply),
            FuseOperator::Open => MetaRoute::Serve(ReplyForm::Rep),
            FuseOperator::MkNod => MetaRoute::Serve(ReplyForm::Rep),
            FuseOperator::Create => MetaRoute::Serve(ReplyForm::Rep),
            FuseOperator::Unlink => MetaRoute::Serve(ReplyForm::Rep),
            FuseOperator::RmDir => MetaRoute::Serve(ReplyForm::Rep),
            FuseOperator::Link => MetaRoute::Serve(ReplyForm::Rep),
            FuseOperator::BatchForget => MetaRoute::Serve(ReplyForm::NoReply),
            FuseOperator::Rename => MetaRoute::Serve(ReplyForm::Rep),
            FuseOperator::Rename2 => MetaRoute::Serve(ReplyForm::Rep),
            FuseOperator::FSyncDir => MetaRoute::Serve(ReplyForm::Rep),
            FuseOperator::Destroy => MetaRoute::Serve(ReplyForm::Rep),
            FuseOperator::Interrupt { unique } => MetaRoute::Interrupt(unique),
            FuseOperator::Symlink => MetaRoute::Serve(ReplyForm::Rep),
            FuseOperator::Readlink => MetaRoute::Serve(ReplyForm::Buf),
            FuseOperator::GetLk => MetaRoute::Serve(ReplyForm::Rep),
            FuseOperator::SetLk => MetaRoute::Serve(ReplyForm::Rep),
            FuseOperator::SetLkW => MetaRoute::Serve(ReplyForm::Rep),
            FuseOperator::Notimplemented
            | FuseOperator::Read
            | FuseOperator::Write
            | FuseOperator::Flush
            | FuseOperator::Release
            | FuseOperator::FSync => MetaRoute::Unsupported,
        }
    }

    /// Answers for a metadata operation that returned `result`, in the form that
    /// its route asks for.
    pub fn complete_meta(
        gauges: &mut Gauges,
        reply: &mut FuseResponse,
        form: ReplyForm,
        result: Result<Vec<u8>, FuseError>,
    ) -> (done: MetaReply)
        requires
            form != ReplyForm::NoReply ==> sendable(result_view(result)),
        ensures
            (final(reply)@, final(gauges)@, task_view(done.task)) == meta_completed(
                old(reply)@,
                old(gauges)@,
                form,
                result_view(result),
            ),
            done.silent == if form == ReplyForm::NoReply {
                match silent_labels(old(reply)@) {
                    Some(labels) => Some(
                        NoReplyFinish {
                            labels,
                            status: op_status(result is Err, None, false),
                            errno: result_errno(result),
                        },
                    ),
                    None => None,
                }
            } else {
                None
            },
    {
        match form {
            ReplyForm::Rep | ReplyForm::Buf => {
                let task = reply.send_rep(gauges, result);
                MetaReply { task, silent: None }
            },
            ReplyForm::NoReply => {
                let bare: Result<(), FuseError> = match result {
                    Ok(_) => Ok(()),
                    Err(e) => Err(e),
                };
                let silent = reply.send_none(gauges, bare);
                MetaReply { task: None, silent }
            },
        }
    }

    /// Ends a metadata dispatch whose answer was queued with outcome `sent`. The
    /// operation sample takes its status from the operation, whatever became of the
    /// answer; the dispatch fails if the answer could not be queued.
    pub fn conclude_meta(req: &FuseRequest, reply: &FuseResponse, sent: Result<(), IoError>) -> (r: (
        Option<OperationSample>,
        Result<(), SessionError>,
    ))
        ensures
            r.0 == operation_sample(reply@, req.opcode),
            r.1 == dispatch_result(sent),
    {
        let sample = if reply.is_metered() {
            Some(
                match reply.metrics_op_status() {
                    Some(status) => OperationSample {
                        opcode: req.opcode,
                        status,
                        missing_status: false,
                    },
                    None => OperationSample {
                        opcode: req.opcode,
                        status: FuseReqStatus::Error,
                        missing_status: true,
                    },
                },
            )
        } else {
            None
        };
        (sample, session_result(sent))
    }
}

/// What is held while an interruptible request is dispatched. It is used up by
/// being observed, and only what is left after that can be closed: the duration of
/// the request is observed once, while it still counts as in flight.
pub struct SetlkwScope {
    inflight: Option<ActiveGuard>,
    wait: bool,
}

/// The scope of an interruptible request as a value.
pub struct SetlkwView {
    /// The unit of the in-flight gauge, where metrics are kept.
    pub inflight: Option<GaugeId>,
    /// Whether the duration of the request is observed.
    pub wait: bool,
}

impl View for SetlkwScope {
    type V = SetlkwView;

    closed spec fn view(&self) -> SetlkwView {
        SetlkwView { inflight: guard_view(self.inflight), wait: self.wait }
    }
}

impl SetlkwView {
    /// The scope of a request whose metrics are kept or not.
    pub open spec fn opened(metered: bool) -> SetlkwView {
        SetlkwView { inflight: setlkw_gauge(metered), wait: metered }
    }

    /// How many durations the scope observes until it is closed.
    pub open spec fn wait_samples(self) -> nat {
        if self.wait {
            1
        } else {
            0
        }
    }
}

/// What is left of the scope of an interruptible request once its duration was
/// observed: the unit of the in-flight gauge, where metrics are kept.
pub struct ObservedSetlkw {
    inflight: Option<ActiveGuard>,
}

impl View for ObservedSetlkw {
    type V = Option<GaugeId>;

    closed spec fn view(&self) -> Option<GaugeId> {
        guard_view(self.inflight)
    }
}

/// How a metadata request is dispatched.
pub enum InterruptPlan {
    /// It cannot be interrupted: dispatch it.
    Direct,
    /// It is registered: dispatch it and wait for its notifier at the same time.
    Guarded { guard: PendingRequestGuard, scope: SetlkwScope },
}

impl SetlkwScope {
    /// Says whether the duration of the request is observed, and leaves what is to be
    /// closed after that ([`FuseReceiver::conclude_interrupt`]).
    pub fn observe(self) -> (r: (bool, ObservedSetlkw))
        ensures
            r.0 == self@.wait,
            r.1@ == self@.inflight,
    {
        (self.wait, ObservedSetlkw { inflight: self.inflight })
    }
}

/// What ended the dispatch of an interruptible request.
#[derive(Clone, Copy, Debug, PartialEq, Eq, Structural)]
pub enum InterruptOutcome {
    /// The dispatch ran to its end.
    Completed,
    /// The notifier was woken first.
    Notified,
    /// The dispatch was dropped.
    Aborted,
}

/// The answer to a request that was interrupted.
pub open spec fn interrupted_answer(r: ResponseView, levels: Seq<i64>) -> (
    ResponseView,
    Seq<i64>,
    Option<TaskView>,
) {
    answer(r, levels, Err(FuseError { errno: EINTR }), None, true)
}

/// The in-flight gauge of an interruptible request, where metrics are kept.
pub open spec fn setlkw_gauge(metered: bool) -> Option<GaugeId> {
    if metered {
        Some(GaugeId::SetlkwInflight)
    } else {
        None
    }
}

/// The handle, the gauges and the task after the dispatch of an interruptible
/// request ended: only an interruption is answered here.
pub open spec fn interrupt_ended(
    r: ResponseView,
    levels: Seq<i64>,
    outcome: InterruptOutcome,
) -> (ResponseView, Seq<i64>, Option<TaskView>) {
    if outcome == InterruptOutcome::Notified {
        interrupted_answer(r, levels)
    } else {
        (r, levels, None)
    }
}

impl FuseReceiver {
    /// Plans the dispatch of a metadata request. One that can be interrupted is
    /// registered under its number, and what measures it is set up before the
    /// dispatch begins.
    pub fn dispatch_meta_interrupt<N>(
        pending: &mut PendingRequests<N>,
        gauges: &mut Gauges,
        req: &FuseRequest,
        notifier: Notifier<N>,
        reply: &FuseResponse,
    ) -> (plan: InterruptPlan)
        ensures
            if req.opcode == FuseOpCode::SetLkW {
                &&& plan matches InterruptPlan::Guarded { guard, scope }
                &&& guard@ == (GuardView {
                    unique: req.unique,
                    id: notifier.id,
                    registered: true,
                })
                &&& scope@ == SetlkwView::opened(reply@.metered())
                &&& final(pending)@ == old(pending)@.insert(req.unique, notifier)
                &&& final(gauges)@ == raised_opt(old(gauges)@, setlkw_gauge(reply@.metered()))
            } else {
                &&& plan is Direct
                &&& final(pending)@ == old(pending)@
                &&& final(gauges)@ == old(gauges)@
            },
    {
        if !req.is_interrupt() {
            return InterruptPlan::Direct;
        }
        let guard = PendingRequestGuard::register(pending, req.unique, notifier);
        let metered: bool = reply.is_metered();
        let inflight = if metered {
            Some(ActiveGuard::new(gauges, GaugeId::SetlkwInflight))
        } else {
            None
        };
        InterruptPlan::Guarded { guard, scope: SetlkwScope { inflight, wait: metered } }
    }

    /// Ends the dispatch of an interruptible request, whichever way it ended: its
    /// registration is taken out, and an interruption is answered as such.
    pub fn finish_interrupt<N>(
        pending: &mut PendingRequests<N>,
        gauges: &mut Gauges,
        guard: PendingRequestGuard,
        reply: &mut FuseResponse,
        outcome: InterruptOutcome,
    ) -> (task: Option<FuseTask>)
        ensures
            final(pending)@ == let_go(old(pending)@, guard@),
            (final(reply)@, final(gauges)@, task_view(task)) == interrupt_ended(
                old(reply)@,
                old(gauges)@,
                outcome,
            ),
    {
        let mut guard = guard;
        guard.remove(pending);
        match outcome {
            InterruptOutcome::Notified => reply.send_rep_tagged(
                gauges,
                Err(FuseError { errno: EINTR }),
                None,
                true,
            ),
            InterruptOutcome::Completed | InterruptOutcome::Aborted => None,
        }
    }

    /// Ends the dispatch of a request that was interrupted, whose answer was queued
    /// with outcome `sent`: the interruption was answered, so it is no error of the
    /// dispatch, and no operation ran to an end that could be sampled.
    pub fn conclude_interrupted(sent: Result<(), IoError>) -> (r: (
        Option<OperationSample>,
        Result<(), SessionError>,
    ))
        ensures
            r.0 is None,
            r.1 == dispatch_result(sent),
    {
        (None, session_result(sent))
    }

    /// Closes the scope of an interruptible request, once any answer to it was
    /// queued and its duration observed ([`SetlkwScope::observe`]): its in-flight unit
    /// is given back.
    pub fn conclude_interrupt(gauges: &mut Gauges, scope: ObservedSetlkw)
        ensures
            final(gauges)@ == lowered_opt(old(gauges)@, scope@),
    {
        release_opt(scope.inflight, gauges);
    }
}

/// What can happen to the receive loop.
pub enum ReceiverEvent {
    /// A request arrived and was decoded, or could not be.
    Received(Result<FuseRequest, FuseError>),
    /// Receiving failed.
    ReceiveFailed(IoError),
    /// The shutdown signal changed to this.
    Shutdown(bool),
}

/// What the receive loop does next.
#[derive(Clone, Copy, Debug, PartialEq, Eq, Structural)]
pub enum LoopNext {
    /// Receive again.
    Continue,
    /// Leave the loop in good order.
    Break,
    /// Leave the loop with an error.
    Fail(SessionError),
    /// Dispatch a stream request ([`FuseReceiver::send_stream`]), then receive
    /// again.
    Stream(FuseRequest),
    /// Dispatch a metadata request in a task of its own
    /// ([`FuseReceiver::submit_meta`]), and receive again.
    Meta(FuseRequest),
}

/// What one event does to the receive loop.
pub struct LoopStep {
    /// Whether the wait for this event is observed.
    pub loop_wait: bool,
    /// The reason of a decode error to be counted.
    pub decode_error: Option<&'static str>,
    /// The labels of a receive error to be counted.
    pub receive_error: Option<(&'static str, &'static str)>,
    /// The request to be logged.
    pub log: Option<(u64, FuseOpCode)>,
    /// The audit line to be written.
    pub audit: Option<AuditRecord>,
    pub next: LoopNext,
}

/// Whether the step records nothing.
pub open spec fn silent_step(step: LoopStep) -> bool {
    &&& !step.loop_wait
    &&& step.decode_error is None
    &&& step.receive_error is None
    &&& step.log is None
    &&& step.audit is None
}

/// What the loop does after a receive that failed with `e`.
pub open spec fn failure_next(e: IoError) -> LoopNext {
    if survives(e.os_errno()) {
        LoopNext::Continue
    } else if e.os_errno() == Some(ENODEV) {
        LoopNext::Break
    } else {
        LoopNext::Fail(SessionError::Io(e))
    }
}

/// What the loop does after an event.
pub open spec fn loop_next(event: ReceiverEvent) -> LoopNext {
    match event {
        ReceiverEvent::Received(Ok(req)) => if req.stream() {
            LoopNext::Stream(req)
        } else {
            LoopNext::Meta(req)
        },
        ReceiverEvent::Received(Err(e)) => LoopNext::Fail(SessionError::Fuse(e)),
        ReceiverEvent::ReceiveFailed(e) => failure_next(e),
        ReceiverEvent::Shutdown(down) => if down {
            LoopNext::Break
        } else {
            LoopNext::Continue
        },
    }
}

/// Whether `step` is what a receiver does at `event`.
pub open spec fn turned(rx: ReceiverView, event: ReceiverEvent, step: LoopStep) -> bool {
    &&& step.next == loop_next(event)
    &&& match event {
        ReceiverEvent::Received(Ok(req)) => {
            &&& step.loop_wait == rx.metrics_enabled
            &&& step.decode_error is None
            &&& step.receive_error is None
            &&& step.log == if rx.debug {
                Some((req.unique, req.opcode))
            } else {
                None
            }
            &&& step.audit == if req.meta && rx.audit_logging_enabled {
                Some(AuditRecord { unique: req.unique, ino: req.inode(), opcode: req.opcode })
            } else {
                None
            }
        },
        ReceiverEvent::Received(Err(_)) => {
            &&& step.loop_wait == rx.metrics_enabled
            &&& step.decode_error == if rx.metrics_enabled {
                Some(REASON_OTHER)
            } else {
                None
            }
            &&& step.receive_error is None
            &&& step.log is None
            &&& step.audit is None
        },
        ReceiverEvent::ReceiveFailed(e) => {
            &&& !step.loop_wait
            &&& step.decode_error is None
            &&& match step.receive_error {
                Some((label, action)) => {
                    &&& rx.metrics_enabled
                    &&& label@ == errno_label(e.os_errno())
                    &&& action@ == action_label(e.os_errno())
                },
                None => !rx.metrics_enabled,
            }
            &&& step.log is None
            &&& step.audit is None
        },
        ReceiverEvent::Shutdown(_) => silent_step(step),
    }
}

impl FuseReceiver {
    /// One turn of the receive loop. A request is routed, a failed receive ends the
    /// loop unless it is harmless, and a shutdown ends it. No gauge moves here: what
    /// the step records comes before anything that the request holds.
    pub fn start(&self, event: ReceiverEvent) -> (step: LoopStep)
        ensures
            turned(self@, event, step),
    {
        match event {
            ReceiverEvent::Received(Ok(req)) => self.start_request(req),
            ReceiverEvent::Received(Err(e)) => LoopStep {
                loop_wait: self.metrics_enabled,
                decode_error: if self.metrics_enabled {
                    Some(REASON_OTHER)
                } else {
                    None
                },
                receive_error: None,
                log: None,
                audit: None,
                next: LoopNext::Fail(SessionError::Fuse(e)),
            },
            ReceiverEvent::ReceiveFailed(e) => {
                let os_errno = e.raw_os_error();
                let receive_error = if self.metrics_enabled {
                    Some(receive_error_labels(os_errno))
                } else {
                    None
                };
                let next = match os_errno {
                    Some(errno) => if errno == ENOENT || errno == EINTR || errno == EAGAIN {
                        LoopNext::Continue
                    } else if errno == ENODEV {
                        LoopNext::Break
                    } else {
                        LoopNext::Fail(SessionError::Io(e))
                    },
                    None => LoopNext::Fail(SessionError::Io(e)),
                };
                LoopStep {
                    loop_wait: false,
                    decode_error: None,
                    receive_error,
                    log: None,
                    audit: None,
                    next,
                }
            },
            ReceiverEvent::Shutdown(down) => LoopStep {
                loop_wait: false,
                decode_error: None,
                receive_error: None,
                log: None,
                audit: None,
                next: if down {
                    LoopNext::Break
                } else {
                    LoopNext::Continue
                },
            },
        }
    }

    fn start_request(&self, req: FuseRequest) -> (step: LoopStep)
        ensures
            turned(self@, ReceiverEvent::Received(Ok(req)), step),
    {
        let log = if self.debug {
            Some((req.unique, req.opcode))
        } else {
            None
        };
        let audit = if req.meta {
            self.audit(&req)
        } else {
            None
        };
        let next = if req.is_stream() {
            LoopNext::Stream(req)
        } else {
            LoopNext::Meta(req)
        };
        LoopStep {
            loop_wait: self.metrics_enabled,
            decode_error: None,
            receive_error: None,
            log,
            audit,
            next,
        }
    }
}

/// The gauge of a metadata task, where metrics are kept.
pub open spec fn meta_task_gauge(metrics_enabled: bool) -> Option<GaugeId> {
    if metrics_enabled {
        Some(GaugeId::MetaTaskInflight)
    } else {
        None
    }
}

/// The task of a metadata request, from its submission to the end of its dispatch.
/// Where metrics are kept it holds a unit of the gauge of such tasks, and the delay
/// until it first runs is observed.
pub struct MetaTask {
    inflight: Option<ActiveGuard>,
    polled: bool,
}

/// A metadata task as a value.
pub struct MetaTaskView {
    pub inflight: Option<GaugeId>,
    pub polled: bool,
}

impl View for MetaTask {
    type V = MetaTaskView;

    closed spec fn view(&self) -> MetaTaskView {
        MetaTaskView { inflight: guard_view(self.inflight), polled: self.polled }
    }
}

impl MetaTaskView {
    /// The task as it is submitted.
    pub open spec fn submitted(metrics_enabled: bool) -> MetaTaskView {
        MetaTaskView { inflight: meta_task_gauge(metrics_enabled), polled: false }
    }

    /// Whether a poll of the task observes the delay since its submission: the first
    /// one does, where metrics are kept.
    pub open spec fn spawn_sample(self) -> bool {
        self.inflight is Some && !self.polled
    }

    /// The task after a poll.
    pub open spec fn after_poll(self) -> MetaTaskView {
        MetaTaskView { polled: true, ..self }
    }
}

impl MetaTask {
    /// Notes that the task is polled. Returns whether the delay since its submission
    /// is observed.
    pub fn poll(&mut self) -> (spawn_sample: bool)
        ensures
            spawn_sample == old(self)@.spawn_sample(),
            final(self)@ == old(self)@.after_poll(),
    {
        let sample: bool = self.inflight.is_some() && !self.polled;
        self.polled = true;
        sample
    }

    /// Ends the task, whether its dispatch returned or it was dropped, polled or not:
    /// its unit is given back.
    pub fn end(self, gauges: &mut Gauges)
        ensures
            final(gauges)@ == lowered_opt(old(gauges)@, self@.inflight),
    {
        release_opt(self.inflight, gauges);
    }
}

impl FuseReceiver {
    /// Makes the reply handle of a metadata request and the task that dispatches it.
    pub fn submit_meta(&self, gauges: &mut Gauges, req: &FuseRequest) -> (r: (
        FuseResponse,
        MetaTask,
    ))
        ensures
            r.0@ == ResponseView::fresh(
                req.unique,
                self@.debug,
                gated_labels(self@.metrics_enabled, *req),
            ),
            r.1@ == MetaTaskView::submitted(self@.metrics_enabled),
            final(gauges)@ == raised_opt(
                raised_opt(old(gauges)@, active_gauge(self@.metrics_enabled, *req)),
                meta_task_gauge(self@.metrics_enabled),
            ),
    {
        let labels = self.maybe_req_labels(req);
        let reply = self.new_reply(gauges, req.unique, labels);
        let inflight = if self.metrics_enabled {
            Some(ActiveGuard::new(gauges, GaugeId::MetaTaskInflight))
        } else {
            None
        };
        (reply, MetaTask { inflight, polled: false })
    }
}

} // verus!
