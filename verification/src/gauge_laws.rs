//! What calls on gauges, guards, labels and requests do, stated of the calls.
use vstd::prelude::*;
use crate::errno::IoError;
use crate::metrics::{
    dispatch_io_type, lifecycle_io_type, release_opt, ActiveGuard, FuseReqKind, GaugeId, Gauges,
    IoType, UnsupportedReason,
};
use crate::request::{FuseOpCode, FuseRequest};

verus! {

/// The number after `n`, where the largest is followed by the smallest.
pub open spec fn after(n: i64) -> int {
    if n == 0x7fff_ffff_ffff_ffffi64 {
        -0x8000_0000_0000_0000
    } else {
        n + 1
    }
}

/// Whether gauge `which` is one higher than before and every other is as it was.
pub open spec fn went_up(before: Seq<i64>, now: Seq<i64>, which: GaugeId) -> bool {
    &&& now.len() == before.len()
    &&& forall|g: GaugeId|
        #![trigger g.place()]
        if g == which {
            now[g.place()] == after(before[g.place()])
        } else {
            now[g.place()] == before[g.place()]
        }
}

/// Whether gauge `which` is one lower than before and every other is as it was.
pub open spec fn went_down(before: Seq<i64>, now: Seq<i64>, which: GaugeId) -> bool {
    went_up(now, before, which)
}

/// Whether `guard` is a unit of the gauge `which`, or no unit where there is none.
pub open spec fn unit_of(guard: Option<ActiveGuard>, which: Option<GaugeId>) -> bool {
    match (guard, which) {
        (Some(guard), Some(which)) => guard@ == which,
        (None, None) => true,
        _ => false,
    }
}

/// Whether the unit, if there is one, was given back, and nothing else moved.
pub open spec fn gave_back(before: Seq<i64>, now: Seq<i64>, guard: Option<ActiveGuard>) -> bool {
    match guard {
        Some(guard) => went_down(before, now, guard@),
        None => now == before,
    }
}

/// Gauges do not share places, and each has one.
pub proof fn law_places_are_distinct(a: GaugeId, b: GaugeId)
    ensures
        a.place() == b.place() <==> a == b,
        0 <= a.place() < 8,
{
}

/// New gauges are all at zero, and reading one gives its level.
pub proof fn law_gauges_start_at_zero(gauges: Gauges, g: GaugeId, level: i64)
    requires
        call_ensures(Gauges::new, (), gauges),
        call_ensures(Gauges::get, (&gauges, g), level),
    ensures
        level == 0,
{
}

/// A read gives the level that stands at the place of the gauge.
pub proof fn law_read_gives_level(gauges: Gauges, g: GaugeId, level: i64)
    requires
        call_ensures(Gauges::get, (&gauges, g), level),
    ensures
        level == gauges@[g.place()],
        gauges@.len() == 8,
{
}

/// A read gives the level of the gauge that is asked for: after a unit was taken it is
/// one more for that gauge and the same for every other.
pub proof fn law_read_sees_unit(
    gauges: &mut Gauges,
    g: GaugeId,
    guard: ActiveGuard,
    other: GaugeId,
    first: i64,
    second: i64,
)
    requires
        call_ensures(Gauges::get, (&*old(gauges), other), first),
        call_ensures(ActiveGuard::new, (gauges, g), guard),
        call_ensures(Gauges::get, (&*final(gauges), other), second),
    ensures
        guard@ == g,
        g == other ==> second == after(first),
        g != other ==> second == first,
{
}

/// Taking a unit raises its gauge by one and no other.
pub proof fn law_taking_raises(gauges: &mut Gauges, g: GaugeId, guard: ActiveGuard)
    requires
        call_ensures(ActiveGuard::new, (gauges, g), guard),
    ensures
        guard@ == g,
        went_up(old(gauges)@, final(gauges)@, g),
{
}

/// Giving a unit back lowers its gauge by one and no other; where there is no unit
/// nothing moves.
pub proof fn law_giving_back_lowers(
    gauges: &mut Gauges,
    guard: ActiveGuard,
    other: &mut Gauges,
    unit: Option<ActiveGuard>,
)
    requires
        call_ensures(ActiveGuard::release, (guard, gauges), ()),
        call_ensures(release_opt, (unit, other), ()),
    ensures
        went_down(old(gauges)@, final(gauges)@, guard@),
        gave_back(old(other)@, final(other)@, unit),
{
}

/// A unit that is taken and given back leaves every gauge as it was.
pub proof fn law_unit_balances(
    first: &mut Gauges,
    g: GaugeId,
    guard: ActiveGuard,
    second: &mut Gauges,
)
    requires
        call_ensures(ActiveGuard::new, (first, g), guard),
        *old(second) == *final(first),
        call_ensures(ActiveGuard::release, (guard, second), ()),
    ensures
        final(second)@ == old(first)@,
{
    assert(final(second)@ =~= old(first)@);
}

/// Each kind of request is counted by its own gauge.
pub proof fn law_kinds_have_gauges(kind: FuseReqKind, g: GaugeId)
    requires
        call_ensures(FuseReqKind::active_gauge, (kind,), g),
    ensures
        g == kind.gauge(),
        g == GaugeId::ActiveStream <==> kind == FuseReqKind::Stream,
        g == GaugeId::ActiveMetadata <==> kind == FuseReqKind::Metadata,
{
}

/// Each reason has its own label.
pub proof fn law_reasons_have_labels(reason: UnsupportedReason, label: &'static str)
    requires
        call_ensures(UnsupportedReason::as_str, (reason,), label),
    ensures
        reason == UnsupportedReason::UnknownOpcode <==> label@ == "unknown_opcode"@,
        reason == UnsupportedReason::UnimplementedOpcode <==> label@ == "unimplemented_opcode"@,
{
    reveal_strlit("unknown_opcode");
    reveal_strlit("unimplemented_opcode");
    assert("unknown_opcode"@.len() != "unimplemented_opcode"@.len());
}

/// Reads and writes are timed as dispatches, flushes, fsyncs and releases followed as
/// lifecycles, each under its own family, and nothing else is either.
pub proof fn law_io_families(opcode: FuseOpCode, timed: Option<IoType>, followed: Option<IoType>)
    requires
        call_ensures(dispatch_io_type, (opcode,), timed),
        call_ensures(lifecycle_io_type, (opcode,), followed),
    ensures
        timed == Some(IoType::Read) <==> opcode == FuseOpCode::Read,
        timed == Some(IoType::Write) <==> opcode == FuseOpCode::Write,
        followed == Some(IoType::Flush) <==> opcode == FuseOpCode::Flush,
        followed == Some(IoType::Fsync) <==> opcode == FuseOpCode::Fsync,
        followed == Some(IoType::Release) <==> opcode == FuseOpCode::Release,
        timed matches Some(io) ==> io == IoType::Read || io == IoType::Write,
        followed matches Some(io) ==> io == IoType::Flush || io == IoType::Fsync || io
            == IoType::Release,
{
}

/// Whether an opcode moves or settles file data.
pub open spec fn moves_data(opcode: FuseOpCode) -> bool {
    ||| opcode == FuseOpCode::Read
    ||| opcode == FuseOpCode::Write
    ||| opcode == FuseOpCode::Flush
    ||| opcode == FuseOpCode::Release
    ||| opcode == FuseOpCode::Fsync
}

/// The stream requests are those that move or settle file data, and the one request
/// that can be interrupted is the blocking lock request.
pub proof fn law_request_families(req: FuseRequest, stream: bool, interrupt: bool)
    requires
        call_ensures(FuseRequest::is_stream, (&req,), stream),
        call_ensures(FuseRequest::is_interrupt, (&req,), interrupt),
    ensures
        stream <==> moves_data(req.opcode),
        stream == req.stream(),
        interrupt <==> req.opcode == FuseOpCode::SetLkW,
        !(stream && interrupt),
{
}

/// The operating system's number is that of an error of the operating system, and
/// nothing else has one.
pub proof fn law_only_system_errors_have_numbers(e: IoError, r: Option<i32>)
    requires
        call_ensures(IoError::raw_os_error, (&e,), r),
    ensures
        r is Some <==> e is Os,
        r matches Some(errno) ==> e == IoError::Os(errno),
        r == e.os_errno(),
{
}

} // verus!
