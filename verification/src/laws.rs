//! What holds across the functions of this crate, over the values that their
//! contracts speak of.
use vstd::prelude::*;
use crate::errno::{FuseError, IoError, SessionError, EAGAIN, EINTR, ENOSYS};
use crate::fuse_receiver::{
    action_label, active_gauge, dispatch_result, errno_label, failure_next, gated_labels,
    interrupt_ended, loop_next, meta_completed, meta_dispatched, meta_route, operation_sample,
    scope_of, setlkw_gauge, stream_dispatched, stream_finish, stream_operator, survives, turned,
    unsupported_answer, unsupported_reason, InterruptOutcome, LoopNext, LoopStep, MetaAction,
    MetaRoute, MetaTaskView, ReceiverEvent, ReceiverView, ReplyForm, SetlkwView, StreamAction,
};
use crate::fuse_sender::{
    delivery_of, dequeued, drain_step, report, settled, task_frame, DeliveryView, DrainStep,
};
use crate::metrics::{lowered, lowered_opt, raised, raised_opt};
use crate::metrics::{FuseReqLabels, FuseReqStatus, GaugeId, UnsupportedReason};
use crate::pending::{let_go, GuardView, Notifier};
use crate::request::{FuseOpCode, FuseOperator, FuseRequest};
use crate::response::{
    abandoned, answer, frame, op_status, request_status, result_errno, silent_finish, task_view,
    ResponseView, TaskView,
};

verus! {

// ---------------------------------------------------------------------------
// The receive loop
// ---------------------------------------------------------------------------

/// The action label of a failed receive says what the loop does: `continue` exactly
/// where it receives again, `exit` exactly where it is left.
pub proof fn law_action_label_tracks_loop(e: IoError)
    ensures
        action_label(e.os_errno()) == "continue"@ <==> failure_next(e) is Continue,
        action_label(e.os_errno()) == "exit"@ <==> failure_next(e) is Break || failure_next(
            e,
        ) is Fail,
{
    reveal_strlit("continue");
    reveal_strlit("exit");
    assert("continue"@.len() != "exit"@.len());
}

/// A failure that the receiver finds by itself, such as a request shorter than its
/// header, ends the loop with that failure and is counted as `other`.
pub proof fn law_own_failure_ends_loop(e: IoError)
    requires
        !(e is Os),
    ensures
        failure_next(e) == LoopNext::Fail(SessionError::Io(e)),
        errno_label(e.os_errno()) == "other"@,
        action_label(e.os_errno()) == "exit"@,
{
}

/// A decoded request never ends the loop, whatever becomes of it later: it is
/// dispatched, as a stream request or in a task of its own.
pub proof fn law_request_keeps_loop_running(rx: ReceiverView, req: FuseRequest, step: LoopStep)
    requires
        turned(rx, ReceiverEvent::Received(Ok(req)), step),
    ensures
        req.stream() ==> step.next == LoopNext::Stream(req),
        !req.stream() ==> step.next == LoopNext::Meta(req),
{
}

/// A run of the receive loop: what it dispatched, and how it was left, if it was.
pub struct LoopRun {
    pub dispatched: Seq<FuseRequest>,
    pub result: Option<Result<(), SessionError>>,
}

/// The run in which the loop takes these turns. What comes after the turn that
/// leaves the loop does not happen.
pub open spec fn run_of(turns: Seq<LoopNext>) -> LoopRun
    decreases turns.len(),
{
    if turns.len() == 0 {
        LoopRun { dispatched: Seq::empty(), result: None }
    } else {
        let rest = run_of(turns.drop_first());
        match turns[0] {
            LoopNext::Continue => rest,
            LoopNext::Break => LoopRun { dispatched: Seq::empty(), result: Some(Ok(())) },
            LoopNext::Fail(e) => LoopRun { dispatched: Seq::empty(), result: Some(Err(e)) },
            LoopNext::Stream(req) => LoopRun {
                dispatched: seq![req] + rest.dispatched,
                result: rest.result,
            },
            LoopNext::Meta(req) => LoopRun {
                dispatched: seq![req] + rest.dispatched,
                result: rest.result,
            },
        }
    }
}

/// The turns that the loop takes at these events.
pub open spec fn turns_at(events: Seq<ReceiverEvent>) -> Seq<LoopNext> {
    events.map_values(|event: ReceiverEvent| loop_next(event))
}

/// The turns that these steps ask for.
pub open spec fn turns_of(steps: Seq<LoopStep>) -> Seq<LoopNext> {
    steps.map_values(|step: LoopStep| step.next)
}

/// Whether `steps` are what a receiver does at `events`.
pub open spec fn stepped(
    rx: ReceiverView,
    events: Seq<ReceiverEvent>,
    steps: Seq<LoopStep>,
) -> bool {
    &&& steps.len() == events.len()
    &&& forall|i: int| 0 <= i < events.len() ==> turned(rx, events[i], #[trigger] steps[i])
}

/// Whether an event is a receive that failed in a way the loop survives.
pub open spec fn transient(event: ReceiverEvent) -> bool {
    event matches ReceiverEvent::ReceiveFailed(e) && survives(e.os_errno())
}

/// The events without the failures that the loop survives.
pub open spec fn without_transient(events: Seq<ReceiverEvent>) -> Seq<ReceiverEvent>
    decreases events.len(),
{
    if events.len() == 0 {
        events
    } else {
        let rest = without_transient(events.drop_first());
        if transient(events[0]) {
            rest
        } else {
            seq![events[0]] + rest
        }
    }
}

/// Failures that the loop survives change neither what is dispatched, nor its order,
/// nor how the loop is left.
pub proof fn law_transient_failures_change_nothing(events: Seq<ReceiverEvent>)
    ensures
        run_of(turns_at(events)) == run_of(turns_at(without_transient(events))),
    decreases events.len(),
{
    if events.len() > 0 {
        let rest = events.drop_first();
        law_transient_failures_change_nothing(rest);
        assert(turns_at(events).drop_first() =~= turns_at(rest));
        if !transient(events[0]) {
            let kept = without_transient(rest);
            assert(turns_at(seq![events[0]] + kept).drop_first() =~= turns_at(kept));
        }
    }
}

/// The same events are dispatched alike, and leave the loop alike, whatever the
/// settings of the receiver: with metrics or without, logged or not.
pub proof fn law_settings_do_not_change_run(
    rx: ReceiverView,
    other: ReceiverView,
    events: Seq<ReceiverEvent>,
    steps: Seq<LoopStep>,
    other_steps: Seq<LoopStep>,
)
    requires
        stepped(rx, events, steps),
        stepped(other, events, other_steps),
    ensures
        run_of(turns_of(steps)) == run_of(turns_of(other_steps)),
        run_of(turns_of(steps)) == run_of(turns_at(events)),
{
    assert(turns_of(steps) =~= turns_at(events));
    assert(turns_of(other_steps) =~= turns_at(events));
}

// ---------------------------------------------------------------------------
// The registry of interruptible requests
// ---------------------------------------------------------------------------

/// A guard does not take out what replaced its registration.
pub proof fn law_replacement_stays<N>(
    m: Map<u64, Notifier<N>>,
    unique: u64,
    first: Notifier<N>,
    second: Notifier<N>,
)
    requires
        first.id != second.id,
    ensures
        let_go(
            m.insert(unique, first).insert(unique, second),
            GuardView { unique, id: first.id, registered: true },
        ) == m.insert(unique, second),
{
    assert(m.insert(unique, first).insert(unique, second) =~= m.insert(unique, second));
}

/// Registering and letting go leaves the registry as it was, but for what was under
/// that number before.
pub proof fn law_registration_is_undone<N>(
    m: Map<u64, Notifier<N>>,
    unique: u64,
    notifier: Notifier<N>,
)
    ensures
        let_go(
            m.insert(unique, notifier),
            GuardView { unique, id: notifier.id, registered: true },
        ) == m.remove(unique),
        !m.contains_key(unique) ==> m.remove(unique) == m,
{
    assert(m.insert(unique, notifier).remove(unique) =~= m.remove(unique));
    if !m.contains_key(unique) {
        assert(m.remove(unique) =~= m);
    }
}

/// Once a guard let go, its registration is not there, nobody else's changed, and
/// letting go again changes nothing.
pub proof fn law_letting_go_is_final<N>(m: Map<u64, Notifier<N>>, guard: GuardView)
    requires
        guard.registered,
    ensures
        ({
            let after = let_go(m, guard);
            &&& !(after.contains_key(guard.unique) && after[guard.unique].id == guard.id)
            &&& forall|other: u64|
                #![auto]
                other != guard.unique ==> after.contains_key(other) == m.contains_key(other) && (
                m.contains_key(other) ==> after[other] == m[other])
            &&& let_go(after, guard) == after
            &&& let_go(after, GuardView { registered: false, ..guard }) == after
        }),
{
}

// ---------------------------------------------------------------------------
// Replies
// ---------------------------------------------------------------------------

/// A reply handle holds its unit of the active gauge exactly until it is finished:
/// so it starts, and every answer and every silent finish keeps it so.
pub proof fn law_handle_stays_well_formed(
    r: ResponseView,
    levels: Seq<i64>,
    result: Result<Seq<u8>, FuseError>,
    reason: Option<UnsupportedReason>,
    interrupted: bool,
    status: Option<FuseReqStatus>,
    labels: Option<FuseReqLabels>,
)
    requires
        r.wf(),
    ensures
        ResponseView::fresh(r.unique, r.debug, labels).wf(),
        answer(r, levels, result, reason, interrupted).0.wf(),
        silent_finish(r, levels, status).0.wf(),
{
}

/// A metered request is answered at most once: the first answer becomes a task, and
/// whatever is answered after it is dropped without a trace.
pub proof fn law_answered_at_most_once(
    r: ResponseView,
    levels: Seq<i64>,
    result: Result<Seq<u8>, FuseError>,
    reason: Option<UnsupportedReason>,
    interrupted: bool,
    levels2: Seq<i64>,
    result2: Result<Seq<u8>, FuseError>,
    reason2: Option<UnsupportedReason>,
    interrupted2: bool,
)
    requires
        r.metered(),
        !r.answered(),
    ensures
        ({
            let (after, _, task) = answer(r, levels, result, reason, interrupted);
            &&& task is Some
            &&& answer(after, levels2, result2, reason2, interrupted2) == (
                after,
                levels2,
                None::<TaskView>,
            )
            &&& silent_finish(after, levels2, None) == (after, levels2)
        }),
{
}

/// A stream operation that fails before it answers is answered with one frame, which
/// carries its error number; with metrics the answer counts as an error, and a second
/// failure adds nothing.
pub proof fn law_stream_failure_is_answered(r: ResponseView, levels: Seq<i64>, e: FuseError)
    requires
        !r.answered(),
        e.errno > i32::MIN,
    ensures
        ({
            let (after, levels2, task) = stream_finish(r, levels, Err(e));
            &&& task is Some
            &&& task_frame(task->0).header.error == -e.errno
            &&& task_frame(task->0).header.unique == r.unique
            &&& task_frame(task->0).body == Seq::<u8>::empty()
            &&& if r.metered() {
                &&& task->0 is RequestReply
                &&& task->0->RequestReply_status == FuseReqStatus::Error
                &&& task->0->RequestReply_errno == e.errno
                &&& after.answered()
                &&& stream_finish(after, levels2, Err(e)) == (after, levels2, None::<TaskView>)
            } else {
                task->0 is Reply
            }
        }),
{
}

/// A stream operation that answers and fails after that is not answered again.
pub proof fn law_late_failure_is_dropped(
    r: ResponseView,
    levels: Seq<i64>,
    result: Result<Seq<u8>, FuseError>,
    e: FuseError,
)
    requires
        r.metered(),
    ensures
        ({
            let (after, levels2, _) = answer(r, levels, result, None, false);
            stream_finish(after, levels2, Err(e)) == (after, levels2, None::<TaskView>)
        }),
{
}

/// A request whose body does not parse gives back its unit of the active gauge, leaves
/// no status behind and is never answered.
pub proof fn law_parse_failure_is_silent(
    unique: u64,
    debug: bool,
    labels: FuseReqLabels,
    levels: Seq<i64>,
    result: Result<Seq<u8>, FuseError>,
)
    requires
        levels.len() == 8,
    ensures
        ({
            let r = ResponseView::fresh(unique, debug, Some(labels));
            let (after, levels2) = silent_finish(r, raised(levels, labels.kind.gauge()), None);
            &&& levels2 == levels
            &&& after.answered()
            &&& after.metrics->0.op_status is None
            &&& answer(after, levels2, result, None, false).2 is None
        }),
{
    lemma_raise_lower(levels, labels.kind.gauge());
}

// ---------------------------------------------------------------------------
// Gauges
// ---------------------------------------------------------------------------

proof fn lemma_raise_lower(levels: Seq<i64>, g: GaugeId)
    requires
        levels.len() == 8,
    ensures
        lowered(raised(levels, g), g) == levels,
{
    assert(lowered(raised(levels, g), g) =~= levels);
}

/// A gauge that is raised for a guard is back where it was once the guard let go.
pub proof fn law_guard_balances(levels: Seq<i64>, g: Option<GaugeId>)
    requires
        levels.len() == 8,
    ensures
        lowered_opt(raised_opt(levels, g), g) == levels,
{
    if let Some(g) = g {
        lemma_raise_lower(levels, g);
    }
}

/// The order in which gauges go up and down does not matter, so concurrent requests do
/// not disturb each other's balance.
pub proof fn law_gauge_steps_commute(levels: Seq<i64>, a: GaugeId, b: GaugeId)
    requires
        levels.len() == 8,
    ensures
        lowered(raised(levels, a), b) == raised(lowered(levels, b), a),
        raised(raised(levels, a), b) == raised(raised(levels, b), a),
        lowered(lowered(levels, a), b) == lowered(lowered(levels, b), a),
{
    assert(lowered(raised(levels, a), b) =~= raised(lowered(levels, b), a));
    assert(raised(raised(levels, a), b) =~= raised(raised(levels, b), a));
    assert(lowered(lowered(levels, a), b) =~= lowered(lowered(levels, b), a));
}

/// A metered request that is answered gives every unit back: the queue's when its
/// task leaves the queue, its own when the delivery has ended; or both at once where
/// the task could not be queued.
pub proof fn law_answered_request_balances(
    unique: u64,
    debug: bool,
    labels: FuseReqLabels,
    levels: Seq<i64>,
    result: Result<Seq<u8>, FuseError>,
    reason: Option<UnsupportedReason>,
    interrupted: bool,
)
    requires
        levels.len() == 8,
    ensures
        ({
            let r = ResponseView::fresh(unique, debug, Some(labels));
            let start = raised(levels, labels.kind.gauge());
            let (_, queued, task) = answer(r, start, result, reason, interrupted);
            &&& task is Some
            &&& queued == raised(start, GaugeId::ReplyQueueDepth)
            &&& dequeued(queued, task->0) == start
            &&& settled(dequeued(queued, task->0), delivery_of(task->0)) == levels
            &&& abandoned(queued, task->0) == levels
        }),
{
    let start = raised(levels, labels.kind.gauge());
    lemma_raise_lower(levels, labels.kind.gauge());
    lemma_raise_lower(start, GaugeId::ReplyQueueDepth);
}

/// A metered stream request whose operation answers gives every unit back, whether
/// the operation goes on to succeed or to fail, and whether it answers before its
/// dispatch is concluded or later.
pub proof fn law_answered_stream_request_balances(
    req: FuseRequest,
    debug: bool,
    levels: Seq<i64>,
    result: Result<Seq<u8>, FuseError>,
    returned: Result<(), FuseError>,
)
    requires
        levels.len() == 8,
    ensures
        ({
            let r = ResponseView::fresh(req.unique, debug, gated_labels(true, req));
            let inflight = scope_of(true, req.opcode).inflight;
            let start = raised_opt(raised_opt(levels, active_gauge(true, req)), inflight);
            let (after, queued, task) = answer(r, start, result, None, false);
            let concluded = lowered_opt(queued, inflight);
            let (_, late, late_task) = answer(r, lowered_opt(start, inflight), result, None, false);
            &&& task is Some
            &&& stream_finish(after, queued, returned) == (after, queued, None::<TaskView>)
            &&& settled(dequeued(concluded, task->0), delivery_of(task->0)) == levels
            &&& abandoned(concluded, task->0) == levels
            &&& late_task == task
            &&& settled(dequeued(late, task->0), delivery_of(task->0)) == levels
        }),
{
    let r = ResponseView::fresh(req.unique, debug, gated_labels(true, req));
    let inflight = scope_of(true, req.opcode).inflight;
    let start = raised_opt(raised_opt(levels, active_gauge(true, req)), inflight);
    let (_, queued, task) = answer(r, start, result, None, false);
    let concluded = lowered_opt(queued, inflight);
    let (_, late, _) = answer(r, lowered_opt(start, inflight), result, None, false);
    assert(settled(dequeued(concluded, task->0), delivery_of(task->0)) =~= levels);
    assert(abandoned(concluded, task->0) =~= levels);
    assert(settled(dequeued(late, task->0), delivery_of(task->0)) =~= levels);
}

/// A metered stream request whose operation fails gives every unit back: that of its
/// lifecycle when the dispatch is concluded, that of the queue when the answer leaves
/// it, its own when the answer was delivered.
pub proof fn law_stream_request_balances(
    req: FuseRequest,
    debug: bool,
    levels: Seq<i64>,
    e: FuseError,
)
    requires
        levels.len() == 8,
    ensures
        ({
            let r = ResponseView::fresh(req.unique, debug, gated_labels(true, req));
            let inflight = scope_of(true, req.opcode).inflight;
            let start = raised_opt(raised_opt(levels, active_gauge(true, req)), inflight);
            let (_, queued, task) = stream_finish(r, start, Err(e));
            let concluded = lowered_opt(queued, inflight);
            &&& task is Some
            &&& settled(dequeued(concluded, task->0), delivery_of(task->0)) == levels
        }),
{
    let r = ResponseView::fresh(req.unique, debug, gated_labels(true, req));
    let inflight = scope_of(true, req.opcode).inflight;
    let start = raised_opt(raised_opt(levels, active_gauge(true, req)), inflight);
    let (_, queued, task) = stream_finish(r, start, Err(e));
    let concluded = lowered_opt(queued, inflight);
    assert(settled(dequeued(concluded, task->0), delivery_of(task->0)) =~= levels);
}

/// A metered request that expects no reply gives its unit back when it is finished.
pub proof fn law_silent_request_balances(
    unique: u64,
    debug: bool,
    labels: FuseReqLabels,
    levels: Seq<i64>,
    result: Result<Seq<u8>, FuseError>,
)
    requires
        levels.len() == 8,
    ensures
        ({
            let r = ResponseView::fresh(unique, debug, Some(labels));
            let start = raised(levels, labels.kind.gauge());
            meta_completed(r, start, ReplyForm::NoReply, result).1 == levels
        }),
{
    lemma_raise_lower(levels, labels.kind.gauge());
}

/// How many spawn delays are observed in `polls` polls of a metadata task.
pub open spec fn spawn_samples(task: MetaTaskView, polls: nat) -> nat
    decreases polls,
{
    if polls == 0 {
        0
    } else {
        (if task.spawn_sample() {
            1nat
        } else {
            0nat
        }) + spawn_samples(task.after_poll(), (polls - 1) as nat)
    }
}

/// A metadata task after `polls` polls.
pub open spec fn polled(task: MetaTaskView, polls: nat) -> MetaTaskView {
    if polls == 0 {
        task
    } else {
        task.after_poll()
    }
}

proof fn lemma_no_later_sample(task: MetaTaskView, polls: nat)
    requires
        task.polled,
    ensures
        spawn_samples(task, polls) == 0,
    decreases polls,
{
    if polls > 0 {
        lemma_no_later_sample(task.after_poll(), (polls - 1) as nat);
    }
}

/// A metered metadata task counts as in flight from its submission on, and no longer
/// once it has ended, also where it was never polled; its spawn delay is observed
/// once if it is polled and never if it is not. Without metrics it does neither.
pub proof fn law_meta_task_is_counted_and_sampled_once(
    levels: Seq<i64>,
    metrics_enabled: bool,
    polls: nat,
)
    requires
        levels.len() == 8,
    ensures
        ({
            let task = MetaTaskView::submitted(metrics_enabled);
            let submitted = raised_opt(levels, task.inflight);
            &&& submitted == if metrics_enabled {
                raised(levels, GaugeId::MetaTaskInflight)
            } else {
                levels
            }
            &&& lowered_opt(submitted, polled(task, polls).inflight) == levels
            &&& spawn_samples(task, polls) == if metrics_enabled && polls > 0 {
                1nat
            } else {
                0
            }
        }),
{
    let task = MetaTaskView::submitted(metrics_enabled);
    law_guard_balances(levels, task.inflight);
    if polls > 0 {
        lemma_no_later_sample(task.after_poll(), (polls - 1) as nat);
    }
}

// ---------------------------------------------------------------------------
// Routing
// ---------------------------------------------------------------------------

/// Every operator but the placeholder for what is not implemented is served by one
/// of the two dispatches, and by one only.
pub proof fn law_routes_partition_operators(op: FuseOperator)
    requires
        op != FuseOperator::Notimplemented,
    ensures
        stream_operator(op) <==> meta_route(op) is Unsupported,
{
}

/// The placeholder is served by neither.
pub proof fn law_notimplemented_is_unsupported()
    ensures
        !stream_operator(FuseOperator::Notimplemented),
        meta_route(FuseOperator::Notimplemented) is Unsupported,
{
}

/// An operation that is not offered is answered `ENOSYS` and counted as unsupported,
/// with its reason.
pub proof fn law_unsupported_is_answered(
    r: ResponseView,
    levels: Seq<i64>,
    reason: UnsupportedReason,
)
    requires
        !r.answered(),
    ensures
        ({
            let (after, _, task) = unsupported_answer(r, levels, reason);
            &&& task is Some
            &&& task_frame(task->0).header.error == -ENOSYS
            &&& r.metered() ==> {
                &&& task->0->RequestReply_status == FuseReqStatus::Unsupported
                &&& task->0->RequestReply_errno == ENOSYS
                &&& task->0->RequestReply_unsupported_reason == Some(reason)
                &&& after.metrics->0.op_status == Some(FuseReqStatus::Unsupported)
            }
        }),
{
}

/// Every metered metadata request is finished by the time its dispatch is concluded,
/// and leaves a status for its operation sample; a reply is queued exactly where its
/// route owes one.
pub proof fn law_meta_request_is_finished(
    r: ResponseView,
    levels: Seq<i64>,
    op: FuseOperator,
    opcode: FuseOpCode,
    result: Result<Seq<u8>, FuseError>,
)
    requires
        r.metered(),
        !r.answered(),
    ensures
        match meta_route(op) {
            MetaRoute::Serve(form) => {
                let (after, _, task) = meta_completed(r, levels, form, result);
                &&& after.answered()
                &&& after.metrics->0.op_status == Some(op_status(result is Err, None, false))
                &&& task is Some <==> form != ReplyForm::NoReply
            },
            MetaRoute::Interrupt(_) => {
                let (after, _, task) = meta_completed(r, levels, ReplyForm::NoReply, result);
                &&& after.answered()
                &&& after.metrics->0.op_status == Some(op_status(result is Err, None, false))
                &&& task is None
            },
            MetaRoute::Unsupported => {
                let (after, _, task) = unsupported_answer(r, levels, unsupported_reason(opcode));
                &&& after.answered()
                &&& after.metrics->0.op_status == Some(FuseReqStatus::Unsupported)
                &&& task is Some
            },
        },
{
}

/// Forgets and interrupts are never answered, with metrics or without.
pub proof fn law_no_reply_operations(
    r: ResponseView,
    levels: Seq<i64>,
    result: Result<Seq<u8>, FuseError>,
    unique: u64,
)
    ensures
        meta_route(FuseOperator::Forget) == MetaRoute::Serve(ReplyForm::NoReply),
        meta_route(FuseOperator::BatchForget) == MetaRoute::Serve(ReplyForm::NoReply),
        meta_route(FuseOperator::Interrupt { unique }) == MetaRoute::Interrupt(unique),
        meta_completed(r, levels, ReplyForm::NoReply, result).2 is None,
{
}

// ---------------------------------------------------------------------------
// Metrics
// ---------------------------------------------------------------------------

/// A metered stream request is either timed as a dispatch or followed as a lifecycle,
/// never both and never neither; any other request is neither.
pub proof fn law_one_scope_per_stream_request(req: FuseRequest)
    ensures
        ({
            let scope = scope_of(true, req.opcode);
            &&& req.stream() <==> (scope.dispatch is Some) != (scope.lifecycle is Some)
            &&& !req.stream() ==> scope.dispatch is None && scope.lifecycle is None
            &&& scope.inflight is Some <==> scope.lifecycle is Some
        }),
{
}

/// Without metrics nothing is labelled, timed, held or sampled, and no gauge moves.
pub proof fn law_disabled_metrics_leave_no_trace(
    req: FuseRequest,
    debug: bool,
    levels: Seq<i64>,
    result: Result<Seq<u8>, FuseError>,
    reason: Option<UnsupportedReason>,
    interrupted: bool,
)
    ensures
        ({
            let r = ResponseView::fresh(req.unique, debug, gated_labels(false, req));
            &&& !r.metered()
            &&& scope_of(r.metered(), req.opcode).dispatch is None
            &&& scope_of(r.metered(), req.opcode).lifecycle is None
            &&& scope_of(r.metered(), req.opcode).inflight is None
            &&& operation_sample(r, req.opcode) is None
            &&& answer(r, levels, result, reason, interrupted) == (
                r,
                levels,
                Some(TaskView::Reply(frame(req.unique, result))),
            )
            &&& silent_finish(r, levels, None) == (r, levels)
        }),
{
}

/// A stream request is dispatched alike with metrics and without: the same call of
/// the file system, the same rejection, or the same frame.
pub proof fn law_metrics_do_not_change_stream_dispatch(
    req: FuseRequest,
    parsed: Result<FuseOperator, FuseError>,
    r: ResponseView,
    levels: Seq<i64>,
    r2: ResponseView,
    levels2: Seq<i64>,
    action: StreamAction,
    other: ResponseView,
    other_levels: Seq<i64>,
    other2: ResponseView,
    other_levels2: Seq<i64>,
    other_action: StreamAction,
)
    requires
        r.unique == other.unique,
        !r.answered(),
        !other.answered(),
        stream_dispatched(req, parsed, r, levels, r2, levels2, action),
        stream_dispatched(req, parsed, other, other_levels, other2, other_levels2, other_action),
    ensures
        match action {
            StreamAction::Reject { err, .. } => {
                other_action matches StreamAction::Reject { err: other_err, .. } && other_err == err
            },
            StreamAction::Call { operator, .. } => {
                other_action matches StreamAction::Call { operator: other_operator, .. }
                    && other_operator == operator
            },
            StreamAction::Unsupported { task, .. } => {
                &&& other_action matches StreamAction::Unsupported { task: other_task, .. }
                &&& task is Some
                &&& other_task is Some
                &&& task_frame(task->0@) == task_frame(other_task->0@)
            },
        },
{
    if let StreamAction::Unsupported { task, .. } = action {
        assert(task_view(task) is Some);
    }
    if let StreamAction::Unsupported { task, .. } = other_action {
        assert(task_view(task) is Some);
    }
}

/// A metadata request is dispatched alike with metrics and without: the same call of
/// the file system, the same waiter woken, the same rejection, or the same frame.
pub proof fn law_metrics_do_not_change_meta_dispatch<N>(
    pending: Map<u64, Notifier<N>>,
    req: FuseRequest,
    parsed: Result<FuseOperator, FuseError>,
    r: ResponseView,
    levels: Seq<i64>,
    r2: ResponseView,
    levels2: Seq<i64>,
    action: MetaAction<N>,
    other: ResponseView,
    other_levels: Seq<i64>,
    other2: ResponseView,
    other_levels2: Seq<i64>,
    other_action: MetaAction<N>,
)
    requires
        r.unique == other.unique,
        !r.answered(),
        !other.answered(),
        meta_dispatched(pending, req, parsed, r, levels, r2, levels2, action),
        meta_dispatched(
            pending,
            req,
            parsed,
            other,
            other_levels,
            other2,
            other_levels2,
            other_action,
        ),
    ensures
        match action {
            MetaAction::Reject { err, .. } => {
                other_action matches MetaAction::Reject { err: other_err, .. } && other_err == err
            },
            MetaAction::Call { operator, form } => {
                &&& other_action matches MetaAction::Call {
                    operator: other_operator,
                    form: other_form,
                }
                &&& other_operator == operator
                &&& other_form == form
            },
            MetaAction::Notify(notifier) => {
                other_action matches MetaAction::Notify(other_notifier) && *other_notifier
                    == *notifier
            },
            MetaAction::Send(task) => {
                &&& other_action matches MetaAction::Send(other_task)
                &&& task is Some
                &&& other_task is Some
                &&& task_frame(task->0@) == task_frame(other_task->0@)
            },
        },
{
    if let MetaAction::Send(task) = action {
        assert(task_view(task) is Some);
    }
    if let MetaAction::Send(task) = other_action {
        assert(task_view(task) is Some);
    }
}

/// The operation sample reports how the operation ended; whether its answer reaches
/// the kernel changes the request's status and nothing else.
pub proof fn law_delivery_does_not_touch_operation(
    r: ResponseView,
    levels: Seq<i64>,
    result: Result<Seq<u8>, FuseError>,
    reason: Option<UnsupportedReason>,
    interrupted: bool,
    opcode: FuseOpCode,
    sent: Result<(), IoError>,
    live: bool,
)
    requires
        r.metered(),
        !r.answered(),
    ensures
        ({
            let status = op_status(result is Err, reason, interrupted);
            let (after, _, task) = answer(r, levels, result, reason, interrupted);
            let finish = report(delivery_of(task->0), sent, live).request;
            &&& operation_sample(after, opcode) is Some
            &&& operation_sample(after, opcode)->0.status == status
            &&& !operation_sample(after, opcode)->0.missing_status
            &&& finish is Some
            &&& finish->0.op_status == status
            &&& finish->0.errno == result_errno(result)
            &&& sent is Ok ==> finish->0.request_status == status
            &&& sent is Err ==> finish->0.request_status == FuseReqStatus::Error
            &&& request_status(status, sent is Ok) == finish->0.request_status
        }),
{
}

/// A sender reports its liveness only after a delivery that succeeded, and only if it
/// tracks it.
pub proof fn law_liveness_means_delivery(
    delivery: DeliveryView,
    sent: Result<(), IoError>,
    live: bool,
)
    ensures
        report(delivery, sent, live).progress ==> live && sent is Ok,
        report(delivery, sent, live).warn is Some ==> sent is Err,
{
}

// ---------------------------------------------------------------------------
// Interruption
// ---------------------------------------------------------------------------

/// An interruption that comes before any answer is answered `EINTR` and counted as
/// interrupted, for no reason of its own; one that comes after an answer adds none.
/// The dispatch succeeds exactly where the answer was queued.
pub proof fn law_interruption_is_answered_once(
    r: ResponseView,
    levels: Seq<i64>,
    sent: Result<(), IoError>,
)
    requires
        r.metered(),
    ensures
        ({
            let (after, _, task) = interrupt_ended(r, levels, InterruptOutcome::Notified);
            &&& after.answered()
            &&& task is Some <==> !r.answered()
            &&& task is Some ==> {
                &&& task->0->RequestReply_status == FuseReqStatus::Interrupted
                &&& task->0->RequestReply_unsupported_reason is None
                &&& task_frame(task->0).header.error == -EINTR
            }
            &&& dispatch_result(sent) is Ok <==> sent is Ok
        }),
{
}

/// What ends without an interruption is not answered by its end.
pub proof fn law_only_interruption_is_answered(
    r: ResponseView,
    levels: Seq<i64>,
    outcome: InterruptOutcome,
)
    requires
        outcome != InterruptOutcome::Notified,
    ensures
        interrupt_ended(r, levels, outcome) == (r, levels, None::<TaskView>),
{
}

/// A metered lock request that is interrupted gives every unit back: that of the
/// requests in flight when its scope is closed, that of the queue when the answer
/// leaves it, its own when the answer was delivered.
pub proof fn law_interrupted_request_balances(
    unique: u64,
    debug: bool,
    labels: FuseReqLabels,
    levels: Seq<i64>,
)
    requires
        levels.len() == 8,
    ensures
        ({
            let r = ResponseView::fresh(unique, debug, Some(labels));
            let inflight = setlkw_gauge(r.metered());
            let start = raised_opt(raised(levels, labels.kind.gauge()), inflight);
            let (_, queued, task) = interrupt_ended(r, start, InterruptOutcome::Notified);
            let concluded = lowered_opt(queued, inflight);
            &&& task is Some
            &&& settled(dequeued(concluded, task->0), delivery_of(task->0)) == levels
        }),
{
    let r = ResponseView::fresh(unique, debug, Some(labels));
    let inflight = setlkw_gauge(r.metered());
    let start = raised_opt(raised(levels, labels.kind.gauge()), inflight);
    let (_, queued, task) = interrupt_ended(r, start, InterruptOutcome::Notified);
    let concluded = lowered_opt(queued, inflight);
    assert(settled(dequeued(concluded, task->0), delivery_of(task->0)) =~= levels);
}

/// Whichever way the dispatch of an interruptible request ends, closing its scope
/// leaves the gauges as if it had never been in flight, and its duration is observed
/// once where metrics are kept and never where they are not.
pub proof fn law_interruptible_scope_balances(
    r: ResponseView,
    levels: Seq<i64>,
    outcome: InterruptOutcome,
)
    requires
        levels.len() == 8,
    ensures
        ({
            let scope = SetlkwView::opened(r.metered());
            let flown = interrupt_ended(r, raised_opt(levels, scope.inflight), outcome);
            let grounded = interrupt_ended(r, levels, outcome);
            &&& lowered_opt(flown.1, scope.inflight) == grounded.1
            &&& flown.0 == grounded.0
            &&& flown.2 == grounded.2
            &&& scope.inflight == setlkw_gauge(r.metered())
            &&& scope.wait_samples() == if r.metered() {
                1nat
            } else {
                0
            }
        }),
{
    let scope = SetlkwView::opened(r.metered());
    let flown = interrupt_ended(r, raised_opt(levels, scope.inflight), outcome);
    let grounded = interrupt_ended(r, levels, outcome);
    assert(lowered_opt(flown.1, scope.inflight) =~= grounded.1);
}

/// A metered request that nobody answers gives every unit back once its handle is
/// abandoned: one whose wait was aborted, one whose task was dropped, polled or not,
/// and a stream request whose operation succeeded without an answer. None of them
/// leaves a status behind.
pub proof fn law_abandoned_request_balances(
    req: FuseRequest,
    debug: bool,
    levels: Seq<i64>,
    polls: nat,
)
    requires
        levels.len() == 8,
    ensures
        ({
            let r = ResponseView::fresh(req.unique, debug, gated_labels(true, req));
            let active = raised_opt(levels, active_gauge(true, req));
            let task = MetaTaskView::submitted(true);
            let submitted = raised_opt(active, task.inflight);
            let ended = lowered_opt(submitted, polled(task, polls).inflight);
            let wait = SetlkwView::opened(r.metered());
            let (aborted, wait_levels, wait_task) = interrupt_ended(
                r,
                raised_opt(submitted, wait.inflight),
                InterruptOutcome::Aborted,
            );
            let wait_closed = lowered_opt(
                lowered_opt(wait_levels, wait.inflight),
                polled(task, polls).inflight,
            );
            let inflight = scope_of(r.metered(), req.opcode).inflight;
            let (returned, stream_levels, stream_task) = stream_finish(
                r,
                raised_opt(active, inflight),
                Ok(()),
            );
            let stream_closed = lowered_opt(stream_levels, inflight);
            &&& silent_finish(r, active, None).1 == levels
            &&& silent_finish(r, ended, None).1 == levels
            &&& wait_task is None
            &&& silent_finish(aborted, wait_closed, None).1 == levels
            &&& stream_task is None
            &&& silent_finish(returned, stream_closed, None).1 == levels
            &&& silent_finish(r, active, None).0.metrics->0.op_status is None
        }),
{
    let r = ResponseView::fresh(req.unique, debug, gated_labels(true, req));
    let active = raised_opt(levels, active_gauge(true, req));
    let task = MetaTaskView::submitted(true);
    let submitted = raised_opt(active, task.inflight);
    let wait = SetlkwView::opened(r.metered());
    let inflight = scope_of(r.metered(), req.opcode).inflight;
    law_guard_balances(levels, active_gauge(true, req));
    law_guard_balances(active, task.inflight);
    law_guard_balances(submitted, wait.inflight);
    law_guard_balances(active, inflight);
}

// ---------------------------------------------------------------------------
// Draining
// ---------------------------------------------------------------------------

/// What a pipe with `residue` bytes in it holds when a drain has stopped. A read gets
/// `chunk(residue)` bytes; from an empty pipe it gets the end of the file, if the
/// other end is `closed`, or else `EAGAIN`. The reads at which `interrupts` is true
/// are interrupted and get nothing.
pub open spec fn after_drain(
    residue: nat,
    chunk: spec_fn(nat) -> nat,
    interrupts: Seq<bool>,
    closed: bool,
) -> nat
    decreases interrupts.len(), residue,
    when forall|n: nat| n > 0 ==> 0 < #[trigger] chunk(n) <= n && chunk(n) <= usize::MAX
{
    let rest = if interrupts.len() > 0 {
        interrupts.drop_first()
    } else {
        interrupts
    };
    let (read, left): (Result<usize, IoError>, nat) = if interrupts.len() > 0 && interrupts[0] {
        (Err(IoError::Os(EINTR)), residue)
    } else if residue == 0 && closed {
        (Ok(0), 0)
    } else if residue == 0 {
        (Err(IoError::Os(EAGAIN)), 0)
    } else {
        (Ok(chunk(residue) as usize), (residue - chunk(residue)) as nat)
    };
    if drain_step(read) == DrainStep::Continue {
        after_drain(left, chunk, rest, closed)
    } else {
        left
    }
}

/// A drain leaves the pipe empty, however the reads split what is in it, however often
/// they are interrupted, and whether the other end is open or closed.
pub proof fn law_drain_empties_pipe(
    residue: nat,
    chunk: spec_fn(nat) -> nat,
    interrupts: Seq<bool>,
    closed: bool,
)
    requires
        forall|n: nat| n > 0 ==> 0 < #[trigger] chunk(n) <= n && chunk(n) <= usize::MAX,
    ensures
        after_drain(residue, chunk, interrupts, closed) == 0,
    decreases interrupts.len(), residue,
{
    let rest = if interrupts.len() > 0 {
        interrupts.drop_first()
    } else {
        interrupts
    };
    if interrupts.len() > 0 && interrupts[0] {
        law_drain_empties_pipe(residue, chunk, rest, closed);
    } else if residue > 0 {
        assert(0 < chunk(residue) <= residue);
        law_drain_empties_pipe((residue - chunk(residue)) as nat, chunk, rest, closed);
    }
}

} // verus!
