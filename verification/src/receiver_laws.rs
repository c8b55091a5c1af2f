//! What the receiver's calls do, stated of the calls.
use vstd::prelude::*;
use bytes::BytesMut;
use crate::buffer::contents;
use crate::errno::{FuseError, IoError, SessionError};
use crate::fuse_receiver::{
    receive_error_labels, splice_errno_label, AuditRecord, FuseReceiver, InterruptOutcome,
    InterruptPlan, LoopNext, LoopStep, MetaAction, MetaReply, MetaRoute, MetaTask, ObservedSetlkw,
    OperationSample, ReceivePath, ReceiverEvent, ReplyForm, SetlkwScope, StreamAction, StreamEnd,
    StreamScope,
};
use crate::gauge_laws::{gave_back, moves_data, unit_of, went_down, went_up};
use crate::metrics::{FuseReqKind, FuseReqLabels, FuseReqStatus, GaugeId, Gauges, IoType};
use crate::metrics::UnsupportedReason;
use crate::pending::{Notifier, PendingRequestGuard, PendingRequests};
use crate::reply_laws::{
    answered_with, carried, ended_as, finished_silently, number_of, opened_for, recordable,
    tellable, tells, unanswered, untouched,
};
use crate::request::{FuseOpCode, FuseOperator, FuseRequest};
use crate::response::{EarlyFinish, FuseResponse, FuseTask, ResponseView};

verus! {

// ---------------------------------------------------------------------------
// Receiving
// ---------------------------------------------------------------------------

/// Whether two receivers are set up alike.
pub open spec fn same_setup(a: FuseReceiver, b: FuseReceiver) -> bool {
    &&& a@.fuse_len == b@.fuse_len
    &&& a@.splice_enabled == b@.splice_enabled
    &&& a@.debug == b@.debug
    &&& a@.audit_logging_enabled == b@.audit_logging_enabled
    &&& a@.metrics_enabled == b@.metrics_enabled
}

/// Whether a buffer holds `len` bytes, all of them zero.
pub open spec fn blank(buffer: Seq<u8>, len: int) -> bool {
    &&& buffer.len() == len
    &&& forall|i: int| 0 <= i < len ==> #[trigger] buffer[i] == 0
}

/// A receiver is what it was set up as, and splices exactly where it is to.
pub proof fn law_new_receiver_is_set_up(
    buf_size: usize,
    debug: bool,
    audit_logging_enabled: bool,
    metrics_enabled: bool,
    enable_splice: bool,
    rx: FuseReceiver,
    metered: bool,
    fuse_len: usize,
    path: ReceivePath,
)
    requires
        buf_size <= isize::MAX,
        call_ensures(
            FuseReceiver::new,
            (buf_size, debug, audit_logging_enabled, metrics_enabled, enable_splice),
            rx,
        ),
        call_ensures(FuseReceiver::is_metered, (&rx,), metered),
        call_ensures(FuseReceiver::fuse_len, (&rx,), fuse_len),
        call_ensures(FuseReceiver::receive, (&rx,), path),
    ensures
        blank(rx@.buffer, buf_size as int),
        fuse_len == buf_size,
        metered == metrics_enabled,
        path == ReceivePath::Splice <==> enable_splice,
        rx@.debug == debug,
        rx@.audit_logging_enabled == audit_logging_enabled,
        rx@.metrics_enabled == metrics_enabled,
        rx@.splice_enabled == enable_splice,
        rx@.fuse_len == buf_size,
{
}

/// A receiver takes the splice exactly where it has a pipe, and says truly how it is
/// set up.
pub proof fn law_pipe_decides_path(
    rx: FuseReceiver,
    path: ReceivePath,
    metered: bool,
    fuse_len: usize,
)
    requires
        call_ensures(FuseReceiver::receive, (&rx,), path),
        call_ensures(FuseReceiver::is_metered, (&rx,), metered),
        call_ensures(FuseReceiver::fuse_len, (&rx,), fuse_len),
    ensures
        metered == rx@.metrics_enabled,
        fuse_len == rx@.fuse_len,
        path == ReceivePath::Splice <==> rx@.splice_enabled,
        path == ReceivePath::Read <==> !rx@.splice_enabled,
{
}

/// The buffer is readied for all that a request can take, or for what waits in the
/// pipe, and nothing else of the receiver changes.
pub proof fn law_buffer_is_readied(
    rx: &mut FuseReceiver,
    rx2: &mut FuseReceiver,
    write_len: usize,
)
    requires
        old(rx)@.fuse_len <= isize::MAX,
        write_len <= isize::MAX,
        call_ensures(FuseReceiver::prepare_read, (rx,), ()),
        call_ensures(FuseReceiver::prepare_splice, (rx2, write_len), ()),
    ensures
        blank(final(rx)@.buffer, old(rx)@.fuse_len as int),
        same_setup(*old(rx), *final(rx)),
        blank(final(rx2)@.buffer, write_len as int),
        same_setup(*old(rx2), *final(rx2)),
{
}

/// A receiver can be made with any buffer that can be allocated, and what it was
/// readied for can be handed out: a read up to the length of a request, a splice up to
/// what waited in the pipe.
pub proof fn law_what_was_readied_can_be_taken(
    buf_size: usize,
    debug: bool,
    audit_logging_enabled: bool,
    metrics_enabled: bool,
    enable_splice: bool,
    made: FuseReceiver,
    rx: &mut FuseReceiver,
    rx2: &mut FuseReceiver,
    len: usize,
    rx3: &mut FuseReceiver,
    rx4: &mut FuseReceiver,
    write_len: usize,
    read_len: usize,
)
    requires
        buf_size <= isize::MAX,
        write_len <= isize::MAX,
        len <= buf_size,
        call_ensures(
            FuseReceiver::new,
            (buf_size, debug, audit_logging_enabled, metrics_enabled, enable_splice),
            made,
        ),
        *old(rx) == made,
        call_ensures(FuseReceiver::prepare_read, (rx,), ()),
        *old(rx2) == *final(rx),
        *old(rx3) == made,
        call_ensures(FuseReceiver::prepare_splice, (rx3, write_len), ()),
        *old(rx4) == *final(rx3),
    ensures
        call_requires(
            FuseReceiver::new,
            (buf_size, debug, audit_logging_enabled, metrics_enabled, enable_splice),
        ),
        call_requires(FuseReceiver::prepare_read, (rx,)),
        call_requires(FuseReceiver::read, (rx2, len)),
        call_requires(FuseReceiver::prepare_splice, (rx3, write_len)),
        call_requires(FuseReceiver::splice, (rx4, write_len, read_len)),
{
}

/// Whatever the file system returned can be answered for, as long as it can be told in
/// a frame; an operation that owes no reply needs not even that.
pub proof fn law_tellable_results_can_be_completed(
    gauges: &mut Gauges,
    r: &mut FuseResponse,
    form: ReplyForm,
    result: Result<Vec<u8>, FuseError>,
    returned: Result<(), FuseError>,
)
    requires
        form != ReplyForm::NoReply ==> tellable(result),
        returned matches Err(e) ==> e.errno > -0x8000_0000,
    ensures
        call_requires(FuseReceiver::complete_meta, (gauges, r, form, result)),
        call_requires(FuseReceiver::finish_stream, (gauges, r, returned)),
{
}

/// What is written into the buffer that is lent is what the receiver holds.
pub proof fn law_buffer_is_lent(rx: &mut FuseReceiver, lent: &mut [u8])
    requires
        call_ensures(FuseReceiver::buffer_mut, (rx,), lent),
    ensures
        old(lent)@ == old(rx)@.buffer,
        final(rx)@.buffer == final(lent)@,
        final(lent)@.len() == old(lent)@.len(),
        same_setup(*old(rx), *final(rx)),
{
}

/// Whether `request` is the first `len` bytes of the buffer and the rest stays.
pub open spec fn taken_out(
    before: FuseReceiver,
    now: FuseReceiver,
    len: int,
    request: BytesMut,
) -> bool {
    &&& contents(request).len() == len
    &&& contents(request) + now@.buffer == before@.buffer
    &&& same_setup(before, now)
}

/// A read hands out exactly the bytes that were read, and fails exactly where they are
/// fewer than a header.
pub proof fn law_read_hands_out_what_was_read(
    rx: &mut FuseReceiver,
    len: usize,
    r: Result<BytesMut, IoError>,
)
    requires
        len <= old(rx)@.buffer.len(),
        call_ensures(FuseReceiver::read, (rx, len), r),
    ensures
        r is Ok <==> len >= 40,
        match r {
            Ok(request) => taken_out(*old(rx), *final(rx), len as int, request),
            Err(e) => e == IoError::ShortRead && final(rx)@ == old(rx)@,
        },
{
    if let Ok(request) = r {
        assert(contents(request) + final(rx)@.buffer =~= old(rx)@.buffer);
    }
}

/// A splice hands out exactly the bytes that went through the pipe, and fails exactly
/// where there is no pipe, where the two counts differ, or where they are fewer than a
/// header, in this order.
pub proof fn law_splice_hands_out_what_was_moved(
    rx: &mut FuseReceiver,
    write_len: usize,
    read_len: usize,
    r: Result<BytesMut, IoError>,
)
    requires
        write_len <= old(rx)@.buffer.len(),
        call_ensures(FuseReceiver::splice, (rx, write_len, read_len), r),
    ensures
        r is Ok <==> old(rx)@.splice_enabled && write_len == read_len && read_len >= 40,
        match r {
            Ok(request) => taken_out(*old(rx), *final(rx), read_len as int, request),
            Err(e) => {
                &&& final(rx)@ == old(rx)@
                &&& e == IoError::NoPipe <==> !old(rx)@.splice_enabled
                &&& e == (IoError::SpliceMismatch { write_len, read_len })
                    <==> old(rx)@.splice_enabled && write_len != read_len
                &&& e == IoError::ShortRead <==> old(rx)@.splice_enabled && write_len == read_len
            },
        },
{
    if let Ok(request) = r {
        assert(contents(request) + final(rx)@.buffer =~= old(rx)@.buffer);
    }
}

/// The name of an error number is its own, and the numbers without a name share
/// `other`.
pub proof fn law_error_names(errno: i32, label: &'static str)
    requires
        call_ensures(splice_errno_label, (errno,), label),
    ensures
        errno == 2 ==> label@ == "enoent"@,
        errno == 4 ==> label@ == "eintr"@,
        errno == 11 ==> label@ == "eagain"@,
        errno == 19 ==> label@ == "enodev"@,
        errno != 2 && errno != 4 && errno != 11 && errno != 19 ==> label@ == "other"@,
{
}

/// The labels of a failed receive name its error and say `continue` exactly for the
/// three that the loop survives.
pub proof fn law_failure_labels(
    os_errno: Option<i32>,
    labels: (&'static str, &'static str),
    name: &'static str,
)
    requires
        call_ensures(receive_error_labels, (os_errno,), labels),
        os_errno matches Some(errno) ==> call_ensures(splice_errno_label, (errno,), name),
    ensures
        os_errno is Some ==> labels.0@ == name@,
        os_errno is None ==> labels.0@ == "other"@,
        ({
            let harmless = os_errno == Some(2i32) || os_errno == Some(4i32) || os_errno == Some(
                11i32,
            );
            &&& harmless ==> labels.1@ == "continue"@
            &&& !harmless ==> labels.1@ == "exit"@
        }),
{
}

// ---------------------------------------------------------------------------
// The loop
// ---------------------------------------------------------------------------

/// Whether these labels are those of the request.
pub open spec fn labels_for(req: FuseRequest, labels: FuseReqLabels) -> bool {
    &&& labels.opcode == req.opcode
    &&& labels.kind == FuseReqKind::Stream <==> moves_data(req.opcode)
    &&& labels.kind == FuseReqKind::Metadata <==> !moves_data(req.opcode)
    &&& labels.request_bytes == match req.header {
        Some(header) => header.len,
        None => 0,
    }
}

/// A request is counted under its opcode, its family and its length, and under nothing
/// where metrics are off.
pub proof fn law_labels_are_the_requests(
    rx: FuseReceiver,
    req: FuseRequest,
    labels: FuseReqLabels,
    gated: Option<FuseReqLabels>,
)
    requires
        call_ensures(FuseReceiver::req_labels, (&req,), labels),
        call_ensures(FuseReceiver::maybe_req_labels, (&rx, &req), gated),
    ensures
        labels_for(req, labels),
        gated == if rx@.metrics_enabled {
            Some(labels)
        } else {
            None
        },
{
}

/// Whether the line says who asked for what of which inode.
pub open spec fn line_for(req: FuseRequest, line: AuditRecord) -> bool {
    &&& line.unique == req.unique
    &&& line.opcode == req.opcode
    &&& line.ino == match req.header {
        Some(header) => header.nodeid,
        None => 0,
    }
}

/// A request has an audit line exactly where auditing is on, and the line is about it.
pub proof fn law_audit_line_is_the_requests(
    rx: FuseReceiver,
    req: FuseRequest,
    line: Option<AuditRecord>,
)
    requires
        call_ensures(FuseReceiver::audit, (&rx, &req), line),
    ensures
        line is Some <==> rx@.audit_logging_enabled,
        line matches Some(line) ==> line_for(req, line),
{
}

/// A reply handle is that of its request, as the receiver is set up.
pub proof fn law_receiver_opens_handle(
    rx: FuseReceiver,
    gauges: &mut Gauges,
    unique: u64,
    labels: Option<FuseReqLabels>,
    r: FuseResponse,
)
    requires
        call_ensures(FuseReceiver::new_reply, (&rx, gauges, unique, labels), r),
    ensures
        opened_for(r@, old(gauges)@, final(gauges)@, unique, rx@.debug, labels),
{
    old(gauges).lemma_places();
}

/// A turn of the loop does with its event what the event is for: a request is
/// dispatched by its family and never dropped, a request that cannot be decoded ends
/// the loop with its error, a harmless failure is survived, an unmount ends the loop
/// well, any other failure ends it with itself, and a shutdown ends it.
pub proof fn law_turn_follows_event(rx: FuseReceiver, event: ReceiverEvent, step: LoopStep)
    requires
        call_ensures(FuseReceiver::start, (&rx, event), step),
    ensures
        match event {
            ReceiverEvent::Received(Ok(req)) => {
                &&& step.next == LoopNext::Stream(req) <==> moves_data(req.opcode)
                &&& step.next == LoopNext::Meta(req) <==> !moves_data(req.opcode)
            },
            ReceiverEvent::Received(Err(e)) => step.next == LoopNext::Fail(SessionError::Fuse(e)),
            ReceiverEvent::ReceiveFailed(IoError::Os(n)) => {
                &&& step.next == LoopNext::Continue <==> n == 2 || n == 4 || n == 11
                &&& step.next == LoopNext::Break <==> n == 19
                &&& n != 2 && n != 4 && n != 11 && n != 19 ==> step.next == LoopNext::Fail(
                    SessionError::Io(IoError::Os(n)),
                )
            },
            ReceiverEvent::ReceiveFailed(e) => step.next == LoopNext::Fail(SessionError::Io(e)),
            ReceiverEvent::Shutdown(true) => step.next == LoopNext::Break,
            ReceiverEvent::Shutdown(false) => step.next == LoopNext::Continue,
        },
{
}

/// A turn of the loop records what its event is worth: the wait for anything that was
/// received, the decode error of what was not a request, the labels of a failure, the
/// log and audit lines of a request, each only where it is switched on.
pub proof fn law_turn_records_event(
    rx: FuseReceiver,
    event: ReceiverEvent,
    step: LoopStep,
    labels: (&'static str, &'static str),
    line: Option<AuditRecord>,
)
    requires
        call_ensures(FuseReceiver::start, (&rx, event), step),
        event matches ReceiverEvent::ReceiveFailed(e) ==> call_ensures(
            receive_error_labels,
            (match e {
                IoError::Os(n) => Some(n),
                _ => None,
            },),
            labels,
        ),
        event matches ReceiverEvent::Received(Ok(req)) ==> call_ensures(
            FuseReceiver::audit,
            (&rx, &req),
            line,
        ),
    ensures
        step.loop_wait <==> rx@.metrics_enabled && event is Received,
        step.decode_error is Some <==> rx@.metrics_enabled && event matches ReceiverEvent::Received(
            Err(_),
        ),
        step.decode_error matches Some(reason) ==> reason@ == "other"@,
        step.receive_error is Some <==> rx@.metrics_enabled && event is ReceiveFailed,
        step.receive_error matches Some((name, action)) ==> name@ == labels.0@ && action@
            == labels.1@,
        match event {
            ReceiverEvent::Received(Ok(req)) => {
                &&& step.log == if rx@.debug {
                    Some((req.unique, req.opcode))
                } else {
                    None
                }
                &&& step.audit == if req.meta {
                    line
                } else {
                    None
                }
            },
            _ => step.log is None && step.audit is None,
        },
{
}

/// A metadata request that is submitted has an open handle of its own and, where
/// metrics are kept, counts as an active request and as a task in flight; where they
/// are not, no gauge moves.
pub proof fn law_submitted_request_is_in_flight(
    rx: FuseReceiver,
    gauges: &mut Gauges,
    req: FuseRequest,
    made: (FuseResponse, MetaTask),
    labels: Option<FuseReqLabels>,
)
    requires
        call_ensures(FuseReceiver::submit_meta, (&rx, gauges, &req), made),
        call_ensures(FuseReceiver::maybe_req_labels, (&rx, &req), labels),
    ensures
        !made.1@.polled,
        exists|between: Seq<i64>|
            {
                &&& #[trigger] opened_for(
                    made.0@,
                    old(gauges)@,
                    between,
                    req.unique,
                    rx@.debug,
                    labels,
                )
                &&& if rx@.metrics_enabled {
                    &&& made.1@.inflight == Some(GaugeId::MetaTaskInflight)
                    &&& went_up(between, final(gauges)@, GaugeId::MetaTaskInflight)
                } else {
                    made.1@.inflight is None && final(gauges)@ == between
                }
            },
{
    old(gauges).lemma_places();
    let between = crate::metrics::raised_opt(
        old(gauges)@,
        crate::fuse_receiver::active_gauge(rx@.metrics_enabled, req),
    );
    assert(opened_for(made.0@, old(gauges)@, between, req.unique, rx@.debug, labels));
}

/// A task that was submitted under metrics observes its spawn delay at its first poll
/// and at no other, and gives its unit back when it ends, polled or not.
pub proof fn law_task_is_sampled_once(
    rx: FuseReceiver,
    gauges: &mut Gauges,
    req: FuseRequest,
    made: (FuseResponse, MetaTask),
    task: &mut MetaTask,
    first: bool,
    task2: &mut MetaTask,
    second: bool,
    gauges2: &mut Gauges,
    gauges3: &mut Gauges,
)
    requires
        call_ensures(FuseReceiver::submit_meta, (&rx, gauges, &req), made),
        *old(task) == made.1,
        call_ensures(MetaTask::poll, (task,), first),
        *old(task2) == *final(task),
        call_ensures(MetaTask::poll, (task2,), second),
        call_ensures(MetaTask::end, (made.1, gauges2), ()),
        call_ensures(MetaTask::end, (*final(task2), gauges3), ()),
    ensures
        first == rx@.metrics_enabled,
        !second,
        rx@.metrics_enabled ==> went_down(
            old(gauges2)@,
            final(gauges2)@,
            GaugeId::MetaTaskInflight,
        ) && went_down(old(gauges3)@, final(gauges3)@, GaugeId::MetaTaskInflight),
        !rx@.metrics_enabled ==> final(gauges2)@ == old(gauges2)@ && final(gauges3)@ == old(gauges3)@,
{
    old(gauges2).lemma_places();
    old(gauges3).lemma_places();
}

/// A poll observes the spawn delay exactly where the task is counted and was not
/// polled, and changes nothing else; the end gives back what the task holds.
pub proof fn law_poll_and_end(
    task: &mut MetaTask,
    sample: bool,
    ending: MetaTask,
    gauges: &mut Gauges,
)
    requires
        call_ensures(MetaTask::poll, (task,), sample),
        call_ensures(MetaTask::end, (ending, gauges), ()),
    ensures
        sample <==> old(task)@.inflight is Some && !old(task)@.polled,
        final(task)@.polled,
        final(task)@.inflight == old(task)@.inflight,
        match ending@.inflight {
            Some(unit) => went_down(old(gauges)@, final(gauges)@, unit),
            None => final(gauges)@ == old(gauges)@,
        },
{
    old(gauges).lemma_places();
}

// ---------------------------------------------------------------------------
// Stream requests
// ---------------------------------------------------------------------------

/// Whether an operator is one that a stream request can parse to.
pub open spec fn data_operator(op: FuseOperator) -> bool {
    ||| op == FuseOperator::Read
    ||| op == FuseOperator::Write
    ||| op == FuseOperator::Flush
    ||| op == FuseOperator::Release
    ||| op == FuseOperator::FSync
}

/// Whether a scope is that of a dispatch of `opcode`, and its unit was taken.
pub open spec fn scope_for(
    scope: StreamScope,
    levels: Seq<i64>,
    levels2: Seq<i64>,
    metered: bool,
    opcode: FuseOpCode,
) -> bool {
    &&& scope.dispatch == Some(IoType::Read) <==> metered && opcode == FuseOpCode::Read
    &&& scope.dispatch == Some(IoType::Write) <==> metered && opcode == FuseOpCode::Write
    &&& scope.dispatch is Some ==> scope.dispatch == Some(IoType::Read) || scope.dispatch == Some(
        IoType::Write,
    )
    &&& if metered && opcode == FuseOpCode::Flush {
        &&& scope.lifecycle == Some(IoType::Flush)
        &&& unit_of(scope.inflight, Some(GaugeId::FlushInflight))
        &&& went_up(levels, levels2, GaugeId::FlushInflight)
    } else if metered && opcode == FuseOpCode::Fsync {
        &&& scope.lifecycle == Some(IoType::Fsync)
        &&& unit_of(scope.inflight, Some(GaugeId::FsyncInflight))
        &&& went_up(levels, levels2, GaugeId::FsyncInflight)
    } else if metered && opcode == FuseOpCode::Release {
        &&& scope.lifecycle == Some(IoType::Release)
        &&& unit_of(scope.inflight, Some(GaugeId::ReleaseInflight))
        &&& went_up(levels, levels2, GaugeId::ReleaseInflight)
    } else {
        scope.lifecycle is None && scope.inflight is None && levels2 == levels
    }
}

/// A scope is that of its opcode, where metrics are kept.
pub proof fn law_scope_is_the_opcodes(
    gauges: &mut Gauges,
    metered: bool,
    opcode: FuseOpCode,
    scope: StreamScope,
)
    requires
        call_ensures(StreamScope::open, (gauges, metered, opcode), scope),
    ensures
        scope_for(scope, old(gauges)@, final(gauges)@, metered, opcode),
{
    old(gauges).lemma_places();
}

/// Whether the request was rejected because its body did not parse: nothing is sent,
/// the request is finished without a status, and its error is recorded once.
pub open spec fn rejected(
    before: ResponseView,
    now: ResponseView,
    levels: Seq<i64>,
    levels2: Seq<i64>,
    err: FuseError,
    early: Option<EarlyFinish>,
) -> bool {
    &&& finished_silently(before, now, levels, levels2, None)
    &&& match early {
        Some(early) => {
            &&& recordable(before, Some(early.labels))
            &&& early.errno == err.errno
            &&& early.reason@ == "other"@
        },
        None => recordable(before, None),
    }
}

/// Whether a stream dispatch does what the parsed body asks for: a body that did not
/// parse is rejected with its error; a read, write, flush, release or fsync is called,
/// as itself, with the request still to be answered; anything else is answered as not
/// implemented.
pub open spec fn stream_dispatch_serves(
    req: FuseRequest,
    parsed: Result<FuseOperator, FuseError>,
    before: ResponseView,
    now: ResponseView,
    levels: Seq<i64>,
    levels2: Seq<i64>,
    action: StreamAction,
) -> bool {
    let metered = before.metrics is Some;
    match action {
        StreamAction::Reject { err, early } => {
            &&& parsed == Err::<FuseOperator, FuseError>(err)
            &&& rejected(before, now, levels, levels2, err, early)
        },
        StreamAction::Call { operator, scope } => {
            &&& parsed == Ok::<FuseOperator, FuseError>(operator)
            &&& data_operator(operator)
            &&& now == before
            &&& scope_for(scope, levels, levels2, metered, req.opcode)
        },
        StreamAction::Unsupported { task, scope } => {
            &&& parsed is Ok
            &&& !data_operator(parsed->Ok_0)
            &&& exists|between: Seq<i64>|
                {
                    &&& #[trigger] scope_for(scope, levels, between, metered, req.opcode)
                    &&& answered_with(
                        before,
                        now,
                        between,
                        levels2,
                        task,
                        Err(FuseError { errno: 38 }),
                        Some(UnsupportedReason::UnimplementedOpcode),
                        false,
                    )
                }
        },
    }
}


/// A stream dispatch asks for the call of the very operator that the body parsed to,
/// for every one of the five and no other; it rejects what did not parse and answers
/// the rest as not implemented.
pub proof fn law_stream_dispatch_serves_operator(
    gauges: &mut Gauges,
    req: FuseRequest,
    parsed: Result<FuseOperator, FuseError>,
    r: &mut FuseResponse,
    action: StreamAction,
)
    requires
        call_ensures(FuseReceiver::send_stream_dispatch, (gauges, &req, parsed, r), action),
    ensures
        action matches StreamAction::Call { operator, .. } ==> parsed == Ok::<
            FuseOperator,
            FuseError,
        >(operator),
        parsed matches Ok(op) ==> (action is Call <==> data_operator(op)),
        parsed is Err <==> action is Reject,
        stream_dispatch_serves(
            req,
            parsed,
            old(r)@,
            final(r)@,
            old(gauges)@,
            final(gauges)@,
            action,
        ),
{
    old(gauges).lemma_places();
    let metered = old(r)@.metrics is Some;
    let between = crate::metrics::raised_opt(
        old(gauges)@,
        crate::fuse_receiver::scope_of(metered, req.opcode).inflight,
    );
    if let StreamAction::Unsupported { scope, .. } = action {
        assert(scope_for(scope, old(gauges)@, between, metered, req.opcode));
    }
}

/// A stream request is dispatched with an open handle of its own.
pub proof fn law_stream_request_gets_handle(
    rx: FuseReceiver,
    gauges: &mut Gauges,
    req: FuseRequest,
    parsed: Result<FuseOperator, FuseError>,
    out: (FuseResponse, StreamAction),
    labels: Option<FuseReqLabels>,
)
    requires
        call_ensures(FuseReceiver::send_stream, (&rx, gauges, &req, parsed), out),
        call_ensures(FuseReceiver::maybe_req_labels, (&rx, &req), labels),
    ensures
        out.1 matches StreamAction::Call { operator, .. } ==> parsed == Ok::<
            FuseOperator,
            FuseError,
        >(operator),
        exists|handle: ResponseView, between: Seq<i64>|
            {
                &&& #[trigger] opened_for(
                    handle,
                    old(gauges)@,
                    between,
                    req.unique,
                    rx@.debug,
                    labels,
                )
                &&& stream_dispatch_serves(
                    req,
                    parsed,
                    handle,
                    out.0@,
                    between,
                    final(gauges)@,
                    out.1,
                )
            },
{
    old(gauges).lemma_places();
    let handle = ResponseView::fresh(
        req.unique,
        rx@.debug,
        crate::fuse_receiver::gated_labels(rx@.metrics_enabled, req),
    );
    let between = crate::metrics::raised_opt(
        old(gauges)@,
        crate::fuse_receiver::active_gauge(rx@.metrics_enabled, req),
    );
    assert(opened_for(handle, old(gauges)@, between, req.unique, rx@.debug, labels));
    let scoped = crate::metrics::raised_opt(
        between,
        crate::fuse_receiver::scope_of(rx@.metrics_enabled, req.opcode).inflight,
    );
    if let StreamAction::Unsupported { scope, .. } = out.1 {
        assert(scope_for(scope, between, scoped, rx@.metrics_enabled, req.opcode));
    }
}

/// A stream operation that fails is answered with its error, unless it answered
/// before; one that succeeds is left alone.
pub proof fn law_stream_failure_is_told(
    gauges: &mut Gauges,
    r: &mut FuseResponse,
    result: Result<(), FuseError>,
    task: Option<FuseTask>,
)
    requires
        result matches Err(e) ==> e.errno > -0x8000_0000,
        call_ensures(FuseReceiver::finish_stream, (gauges, r, result), task),
    ensures
        match result {
            Ok(_) => task is None && untouched(
                old(r)@,
                final(r)@,
                old(gauges)@,
                final(gauges)@,
            ),
            Err(e) => answered_with(
                old(r)@,
                final(r)@,
                old(gauges)@,
                final(gauges)@,
                task,
                Err(e),
                None,
                false,
            ),
        },
{
    old(gauges).lemma_places();
}

/// A stream dispatch that ends observes what its scope timed, gives back what the
/// scope held, and fails exactly where its answer could not be queued.
pub proof fn law_stream_end_closes_scope(
    gauges: &mut Gauges,
    scope: StreamScope,
    sent: Result<(), IoError>,
    end: StreamEnd,
)
    requires
        call_ensures(FuseReceiver::conclude_stream, (gauges, scope, sent), end),
    ensures
        end.dispatch == scope.dispatch,
        end.lifecycle == scope.lifecycle,
        gave_back(old(gauges)@, final(gauges)@, scope.inflight),
        end.result is Ok <==> sent is Ok,
        sent matches Err(e) ==> end.result == Err::<(), SessionError>(SessionError::Io(e)),
{
    old(gauges).lemma_places();
}

// ---------------------------------------------------------------------------
// Metadata requests
// ---------------------------------------------------------------------------

/// Whether the kernel expects no reply to an operator.
pub open spec fn unreplied(op: FuseOperator) -> bool {
    op == FuseOperator::Forget || op == FuseOperator::BatchForget || op is Interrupt
}

/// Whether an operator is answered with bytes rather than with a structure.
pub open spec fn answered_with_bytes(op: FuseOperator) -> bool {
    ||| op == FuseOperator::GetXAttr
    ||| op == FuseOperator::ListXAttr
    ||| op == FuseOperator::ReadDir
    ||| op == FuseOperator::ReadDirPlus
    ||| op == FuseOperator::Readlink
}

/// Whether an operator is a metadata operation of the file system.
pub open spec fn metadata_operator(op: FuseOperator) -> bool {
    op != FuseOperator::Notimplemented && !data_operator(op)
}

/// Forgets are served without a reply, and nothing else is; the five that return bytes
/// are answered with them, and nothing else is; interrupts go to the request that they
/// name; stream operators and the placeholder are not served; and all the rest is
/// answered with a structure.
pub proof fn law_routes(op: FuseOperator, route: MetaRoute)
    requires
        call_ensures(FuseReceiver::route_meta, (op,), route),
    ensures
        route == MetaRoute::Serve(ReplyForm::NoReply) <==> unreplied(op) && !(op is Interrupt),
        route == MetaRoute::Serve(ReplyForm::Buf) <==> answered_with_bytes(op),
        route is Interrupt <==> op is Interrupt,
        forall|unique: u64|
            route == MetaRoute::Interrupt(unique) <==> op == (FuseOperator::Interrupt { unique }),
        route == MetaRoute::Unsupported <==> !metadata_operator(op),
        route == MetaRoute::Serve(ReplyForm::Rep) <==> metadata_operator(op) && !unreplied(op)
            && !answered_with_bytes(op),
{
}

/// Whether a metadata dispatch does what the parsed body asks for: a body that did not
/// parse is rejected with its error; an interrupt wakes who waits under its number, if
/// anyone does, and else goes to the file system; any other metadata operator is
/// called, as itself, with the request still to be answered; and what is not served is
/// answered as such, an opcode without a name being unknown.
pub open spec fn meta_dispatch_serves<N>(
    pending: Map<u64, Notifier<N>>,
    req: FuseRequest,
    parsed: Result<FuseOperator, FuseError>,
    before: ResponseView,
    now: ResponseView,
    levels: Seq<i64>,
    levels2: Seq<i64>,
    action: MetaAction<N>,
) -> bool {
    match action {
        MetaAction::Reject { err, early } => {
            &&& parsed == Err::<FuseOperator, FuseError>(err)
            &&& rejected(before, now, levels, levels2, err, early)
        },
        MetaAction::Call { operator, form } => {
            &&& parsed == Ok::<FuseOperator, FuseError>(operator)
            &&& metadata_operator(operator)
            &&& operator matches FuseOperator::Interrupt { unique } ==> !pending.contains_key(
                unique,
            )
            &&& form == ReplyForm::NoReply <==> unreplied(operator)
            &&& form == ReplyForm::Buf <==> answered_with_bytes(operator)
            &&& untouched(before, now, levels, levels2)
        },
        MetaAction::Notify(notifier) => {
            &&& parsed matches Ok(FuseOperator::Interrupt { unique })
            &&& pending.contains_key(unique)
            &&& pending[unique] == *notifier
            &&& untouched(before, now, levels, levels2)
        },
        MetaAction::Send(task) => {
            &&& parsed is Ok
            &&& !metadata_operator(parsed->Ok_0)
            &&& answered_with(
                before,
                now,
                levels,
                levels2,
                task,
                Err(FuseError { errno: 38 }),
                Some(
                    if req.opcode == FuseOpCode::NotSupported {
                        UnsupportedReason::UnknownOpcode
                    } else {
                        UnsupportedReason::UnimplementedOpcode
                    },
                ),
                false,
            )
        },
    }
}

/// A metadata dispatch asks for the call of the very operator that the body parsed to,
/// wakes who waits, rejects what did not parse and answers what is not served.
pub proof fn law_meta_dispatch_serves_operator<N>(
    pending: &PendingRequests<N>,
    gauges: &mut Gauges,
    req: FuseRequest,
    parsed: Result<FuseOperator, FuseError>,
    r: &mut FuseResponse,
    action: MetaAction<N>,
)
    requires
        call_ensures(
            FuseReceiver::dispatch_meta::<N>,
            (pending, gauges, &req, parsed, r),
            action,
        ),
    ensures
        parsed is Err <==> action is Reject,
        parsed matches Ok(op) ==> (action is Send <==> !metadata_operator(op)),
        meta_dispatch_serves(
            pending@,
            req,
            parsed,
            old(r)@,
            final(r)@,
            old(gauges)@,
            final(gauges)@,
            action,
        ),
{
    old(gauges).lemma_places();
}

/// An operation whose form owes a reply is answered with its result, and one whose
/// form owes none is finished and recorded.
pub proof fn law_completion_answers_in_form(
    gauges: &mut Gauges,
    r: &mut FuseResponse,
    form: ReplyForm,
    result: Result<Vec<u8>, FuseError>,
    done: MetaReply,
)
    requires
        form != ReplyForm::NoReply ==> tellable(result),
        call_ensures(FuseReceiver::complete_meta, (gauges, r, form, result), done),
    ensures
        completed_in_form(
            old(r)@,
            final(r)@,
            old(gauges)@,
            final(gauges)@,
            form,
            result,
            done,
        ),
{
    old(gauges).lemma_places();
}

/// Whether a metadata operation was answered, or finished, in its form.
pub open spec fn completed_in_form(
    before: ResponseView,
    now: ResponseView,
    levels: Seq<i64>,
    levels2: Seq<i64>,
    form: ReplyForm,
    result: Result<Vec<u8>, FuseError>,
    done: MetaReply,
) -> bool {
    if form == ReplyForm::NoReply {
        &&& done.task is None
        &&& finished_silently(
            before,
            now,
            levels,
            levels2,
            Some(
                if result is Ok {
                    FuseReqStatus::Success
                } else {
                    FuseReqStatus::Error
                },
            ),
        )
        &&& match done.silent {
            Some(silent) => {
                &&& recordable(before, Some(silent.labels))
                &&& ended_as(silent.status, result is Err, None, false)
                &&& silent.errno == number_of(result)
            },
            None => recordable(before, None),
        }
    } else {
        &&& done.silent is None
        &&& answered_with(before, now, levels, levels2, done.task, result, None, false)
    }
}

/// Every metadata operation that expects a reply is answered exactly once, with what
/// the file system returned for it, with metrics or without; a forget or an interrupt
/// is never answered.
pub proof fn law_metadata_operation_is_answered<N>(
    pending: &PendingRequests<N>,
    gauges: &mut Gauges,
    req: FuseRequest,
    op: FuseOperator,
    r: &mut FuseResponse,
    action: MetaAction<N>,
    gauges2: &mut Gauges,
    r2: &mut FuseResponse,
    result: Result<Vec<u8>, FuseError>,
    done: MetaReply,
)
    requires
        metadata_operator(op),
        tellable(result),
        unanswered(old(r)@),
        call_ensures(
            FuseReceiver::dispatch_meta::<N>,
            (pending, gauges, &req, Ok(op), r),
            action,
        ),
        *old(r2) == *final(r),
        action matches MetaAction::Call { form, .. } ==> call_ensures(
            FuseReceiver::complete_meta,
            (gauges2, r2, form, result),
            done,
        ),
    ensures
        !unreplied(op) ==> {
            &&& action matches MetaAction::Call { operator, .. }
            &&& operator == op
            &&& done.task matches Some(task)
            &&& tells(carried(task), old(r)@.unique, result)
        },
        unreplied(op) ==> {
            ||| action is Notify
            ||| action matches MetaAction::Call { operator, .. } && operator == op && done.task
                is None
        },
{
}

/// The sample of an operation is the one that its answer left, and a dispatch fails
/// exactly where its answer could not be queued.
pub proof fn law_meta_end_samples_operation(
    req: FuseRequest,
    r: FuseResponse,
    sent: Result<(), IoError>,
    out: (Option<OperationSample>, Result<(), SessionError>),
)
    requires
        call_ensures(FuseReceiver::conclude_meta, (&req, &r, sent), out),
    ensures
        out.0 is Some <==> r@.metrics is Some,
        out.0 matches Some(sample) ==> {
            &&& sample.opcode == req.opcode
            &&& match r@.metrics->0.op_status {
                Some(status) => sample.status == status && !sample.missing_status,
                None => sample.status == FuseReqStatus::Error && sample.missing_status,
            }
        },
        out.1 is Ok <==> sent is Ok,
        sent matches Err(e) ==> out.1 == Err::<(), SessionError>(SessionError::Io(e)),
{
}

// ---------------------------------------------------------------------------
// Interruption
// ---------------------------------------------------------------------------

/// The blocking lock request is registered under its number, in flight and to be
/// observed where metrics are kept; any other request is dispatched as it is, and
/// nothing moves.
pub proof fn law_lock_request_is_registered<N>(
    pending: &mut PendingRequests<N>,
    gauges: &mut Gauges,
    req: FuseRequest,
    notifier: Notifier<N>,
    r: FuseResponse,
    plan: InterruptPlan,
)
    requires
        call_ensures(
            FuseReceiver::dispatch_meta_interrupt::<N>,
            (pending, gauges, &req, notifier, &r),
            plan,
        ),
    ensures
        plan is Guarded <==> req.opcode == FuseOpCode::SetLkW,
        match plan {
            InterruptPlan::Direct => {
                final(pending)@ == old(pending)@ && final(gauges)@ == old(gauges)@
            },
            InterruptPlan::Guarded { guard, scope } => {
                &&& final(pending)@.contains_key(req.unique)
                &&& final(pending)@[req.unique] == notifier
                &&& forall|other: u64| #[trigger]
                    final(pending)@.contains_key(other) == (other == req.unique || old(pending)@.contains_key(other))
                &&& forall|other: u64|
                    other != req.unique && old(pending)@.contains_key(other) ==> #[trigger] final(pending)@[other] == old(pending)@[other]
                &&& guard@.unique == req.unique
                &&& guard@.id == notifier.id
                &&& guard@.registered
                &&& scope@.wait == r@.metrics is Some
                &&& if r@.metrics is Some {
                    &&& scope@.inflight == Some(GaugeId::SetlkwInflight)
                    &&& went_up(old(gauges)@, final(gauges)@, GaugeId::SetlkwInflight)
                } else {
                    scope@.inflight is None && final(gauges)@ == old(gauges)@
                }
            },
        },
{
    old(gauges).lemma_places();
}

/// Whether a guard's registration, and no other, is gone from a registry.
pub open spec fn taken_off<N>(
    before: Map<u64, Notifier<N>>,
    now: Map<u64, Notifier<N>>,
    unique: u64,
    id: u64,
) -> bool {
    &&& !(now.contains_key(unique) && now[unique].id == id)
    &&& forall|other: u64| #[trigger]
        now.contains_key(other) ==> before.contains_key(other) && now[other] == before[other]
    &&& forall|other: u64|
        before.contains_key(other) && !(other == unique && before[other].id == id) ==> #[trigger]
        now.contains_key(other)
}

/// An interrupted lock request is answered `EINTR` and counted as interrupted, with
/// metrics or without, unless it was answered before; one that ended otherwise is left
/// alone; and its registration is gone whichever way it ended.
pub proof fn law_interruption_is_told<N>(
    pending: &mut PendingRequests<N>,
    gauges: &mut Gauges,
    guard: PendingRequestGuard,
    r: &mut FuseResponse,
    outcome: InterruptOutcome,
    task: Option<FuseTask>,
)
    requires
        call_ensures(
            FuseReceiver::finish_interrupt::<N>,
            (pending, gauges, guard, r, outcome),
            task,
        ),
    ensures
        guard@.registered ==> taken_off(
            old(pending)@,
            final(pending)@,
            guard@.unique,
            guard@.id,
        ),
        !guard@.registered ==> final(pending)@ == old(pending)@,
        if outcome == InterruptOutcome::Notified {
            answered_with(
                old(r)@,
                final(r)@,
                old(gauges)@,
                final(gauges)@,
                task,
                Err(FuseError { errno: 4 }),
                None,
                true,
            )
        } else {
            task is None && untouched(old(r)@, final(r)@, old(gauges)@, final(gauges)@)
        },
{
    old(gauges).lemma_places();
}

/// A request that was registered and is woken is answered `EINTR` under its own number,
/// with an empty body, with metrics or without.
pub proof fn law_woken_lock_request_returns_eintr<N>(
    pending: &mut PendingRequests<N>,
    gauges: &mut Gauges,
    guard: PendingRequestGuard,
    r: &mut FuseResponse,
    task: Option<FuseTask>,
)
    requires
        unanswered(old(r)@),
        call_ensures(
            FuseReceiver::finish_interrupt::<N>,
            (pending, gauges, guard, r, InterruptOutcome::Notified),
            task,
        ),
    ensures
        ({
            &&& task matches Some(task)
            &&& carried(task).header.error == -4
            &&& carried(task).header.unique == old(r)@.unique
            &&& carried(task).header.len == 16
            &&& carried(task).body@.len() == 0
        }),
{
}

/// An interrupted dispatch leaves no operation sample, and succeeds exactly where its
/// answer was queued.
pub proof fn law_interrupted_end_is_not_sampled(
    sent: Result<(), IoError>,
    out: (Option<OperationSample>, Result<(), SessionError>),
)
    requires
        call_ensures(FuseReceiver::conclude_interrupted, (sent,), out),
    ensures
        out.0 is None,
        out.1 is Ok <==> sent is Ok,
        sent matches Err(e) ==> out.1 == Err::<(), SessionError>(SessionError::Io(e)),
{
}

/// A lock request's duration is observed exactly where metrics are kept, and its unit
/// is given back when it is closed after that.
pub proof fn law_lock_scope_is_closed<N>(
    pending: &mut PendingRequests<N>,
    gauges: &mut Gauges,
    req: FuseRequest,
    notifier: Notifier<N>,
    r: FuseResponse,
    guard: PendingRequestGuard,
    scope: SetlkwScope,
    observed: (bool, ObservedSetlkw),
    gauges2: &mut Gauges,
)
    requires
        call_ensures(
            FuseReceiver::dispatch_meta_interrupt::<N>,
            (pending, gauges, &req, notifier, &r),
            InterruptPlan::Guarded { guard, scope },
        ),
        call_ensures(SetlkwScope::observe, (scope,), observed),
        call_ensures(FuseReceiver::conclude_interrupt, (gauges2, observed.1), ()),
    ensures
        observed.0 <==> r@.metrics is Some,
        if r@.metrics is Some {
            went_down(old(gauges2)@, final(gauges2)@, GaugeId::SetlkwInflight)
        } else {
            final(gauges2)@ == old(gauges2)@
        },
{
    old(gauges2).lemma_places();
}

// ---------------------------------------------------------------------------
// The registry
// ---------------------------------------------------------------------------

/// A new registry is empty; what is registered is found under its number, in place of
/// what was there, and under no other.
pub proof fn law_registered_is_found<N>(
    fresh: PendingRequests<N>,
    nobody: Option<&Notifier<N>>,
    pending: &mut PendingRequests<N>,
    unique: u64,
    notifier: Notifier<N>,
    other: u64,
    found: Option<&Notifier<N>>,
    before: Option<&Notifier<N>>,
)
    requires
        call_ensures(PendingRequests::<N>::new, (), fresh),
        call_ensures(PendingRequests::<N>::get, (&fresh, other), nobody),
        call_ensures(PendingRequests::<N>::insert, (pending, unique, notifier), ()),
        call_ensures(PendingRequests::<N>::get, (&*old(pending), other), before),
        call_ensures(PendingRequests::<N>::get, (&*final(pending), other), found),
    ensures
        nobody is None,
        other == unique ==> found == Some(&notifier),
        other != unique ==> found == before,
{
}

/// A guard registers its notifier, and takes off that one and no other, once.
pub proof fn law_guard_takes_off_its_own<N>(
    pending: &mut PendingRequests<N>,
    unique: u64,
    notifier: Notifier<N>,
    made: PendingRequestGuard,
    guard: &mut PendingRequestGuard,
    pending2: &mut PendingRequests<N>,
    guard2: &mut PendingRequestGuard,
    pending3: &mut PendingRequests<N>,
)
    requires
        call_ensures(PendingRequestGuard::register::<N>, (pending, unique, notifier), made),
        *old(guard) == made,
        call_ensures(PendingRequestGuard::remove::<N>, (guard, pending2), ()),
        *old(guard2) == *final(guard),
        call_ensures(PendingRequestGuard::remove::<N>, (guard2, pending3), ()),
    ensures
        final(pending)@.contains_key(unique),
        final(pending)@[unique] == notifier,
        taken_off(old(pending2)@, final(pending2)@, unique, notifier.id),
        final(pending3)@ == old(pending3)@,
{
}

/// A registration is taken off under its number exactly where it is that of the given
/// notifier.
pub proof fn law_removal_is_selective<N>(
    pending: &mut PendingRequests<N>,
    unique: u64,
    id: u64,
)
    requires
        call_ensures(PendingRequests::<N>::remove_if, (pending, unique, id), ()),
    ensures
        taken_off(old(pending)@, final(pending)@, unique, id),
{
}

} // verus!
