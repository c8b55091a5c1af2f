//! Gauges and the guards that hold them up, labels, statuses and samples.
use vstd::prelude::*;
use crate::request::FuseOpCode;
use vstd::wrapping::i64_specs;

verus! {

/// The gauges that a session keeps.
#[derive(Clone, Copy, Debug, PartialEq, Eq, Structural)]
pub enum GaugeId {
    /// Metadata requests whose reply is still owed.
    ActiveMetadata,
    /// Stream requests whose reply is still owed.
    ActiveStream,
    /// Reply tasks that wait in the reply channel.
    ReplyQueueDepth,
    /// Metadata tasks between submission and the end of their dispatch.
    MetaTaskInflight,
    /// Interruptible lock requests in flight.
    SetlkwInflight,
    /// Flushes in flight.
    FlushInflight,
    /// Fsyncs in flight.
    FsyncInflight,
    /// Releases in flight.
    ReleaseInflight,
}

impl GaugeId {
    /// The gauge's place in [`Gauges`].
    pub open spec fn place(self) -> int {
        match self {
            GaugeId::ActiveMetadata => 0,
            GaugeId::ActiveStream => 1,
            GaugeId::ReplyQueueDepth => 2,
            GaugeId::MetaTaskInflight => 3,
            GaugeId::SetlkwInflight => 4,
            GaugeId::FlushInflight => 5,
            GaugeId::FsyncInflight => 6,
            GaugeId::ReleaseInflight => 7,
        }
    }

    fn index(self) -> (r: usize)
        ensures
            r == self.place(),
            r < 8,
    {
        match self {
            GaugeId::ActiveMetadata => 0,
            GaugeId::ActiveStream => 1,
            GaugeId::ReplyQueueDepth => 2,
            GaugeId::MetaTaskInflight => 3,
            GaugeId::SetlkwInflight => 4,
            GaugeId::FlushInflight => 5,
            GaugeId::FsyncInflight => 6,
            GaugeId::ReleaseInflight => 7,
        }
    }
}

/// The levels of all gauges. A level wraps around like the atomic counter that
/// exports it.
pub struct Gauges {
    levels: [i64; 8],
}

impl View for Gauges {
    type V = Seq<i64>;

    closed spec fn view(&self) -> Seq<i64> {
        self.levels@
    }
}

/// The levels after gauge `g` went up by one.
pub open spec fn raised(levels: Seq<i64>, g: GaugeId) -> Seq<i64> {
    levels.update(g.place(), i64_specs::wrapping_add(levels[g.place()], 1))
}

/// The levels after gauge `g` went down by one.
pub open spec fn lowered(levels: Seq<i64>, g: GaugeId) -> Seq<i64> {
    levels.update(g.place(), i64_specs::wrapping_sub(levels[g.place()], 1))
}

/// The levels after the gauge of a guard, if there is one, went up by one.
pub open spec fn raised_opt(levels: Seq<i64>, g: Option<GaugeId>) -> Seq<i64> {
    match g {
        Some(g) => raised(levels, g),
        None => levels,
    }
}

/// The levels after the guard, if there is one, let go.
pub open spec fn lowered_opt(levels: Seq<i64>, g: Option<GaugeId>) -> Seq<i64> {
    match g {
        Some(g) => lowered(levels, g),
        None => levels,
    }
}

impl Gauges {
    /// All gauges at zero.
    pub fn new() -> (r: Gauges)
        ensures
            r@.len() == 8,
            forall|g: GaugeId| #[trigger] r@[g.place()] == 0,
    {
        Gauges { levels: [0, 0, 0, 0, 0, 0, 0, 0] }
    }

    /// The level of gauge `g`.
    pub fn get(&self, g: GaugeId) -> (r: i64)
        ensures
            self@.len() == 8,
            r == self@[g.place()],
    {
        self.levels[g.index()]
    }

    /// Every gauge has its place.
    pub proof fn lemma_places(&self)
        ensures
            self@.len() == 8,
    {
    }

    fn set(&mut self, g: GaugeId, level: i64)
        ensures
            final(self)@ == old(self)@.update(g.place(), level),
    {
        let i: usize = g.index();
        self.levels[i] = level;
    }
}

/// The right to one unit of a gauge: the gauge went up when the guard was made
/// and goes down when it is released. A guard cannot be copied, so no unit is
/// given back twice.
pub struct ActiveGuard {
    gauge: GaugeId,
}

impl View for ActiveGuard {
    type V = GaugeId;

    closed spec fn view(&self) -> GaugeId {
        self.gauge
    }
}

/// The gauge of an optional guard.
pub open spec fn guard_view(guard: Option<ActiveGuard>) -> Option<GaugeId> {
    match guard {
        Some(guard) => Some(guard@),
        None => None,
    }
}

impl ActiveGuard {
    /// Raises gauge `g` and holds it up.
    pub fn new(gauges: &mut Gauges, g: GaugeId) -> (r: ActiveGuard)
        ensures
            r@ == g,
            old(gauges)@.len() == 8,
            final(gauges)@ == raised(old(gauges)@, g),
    {
        let level: i64 = gauges.get(g);
        gauges.set(g, level.wrapping_add(1));
        ActiveGuard { gauge: g }
    }

    /// Lowers the gauge again.
    pub fn release(self, gauges: &mut Gauges)
        ensures
            old(gauges)@.len() == 8,
            final(gauges)@ == lowered(old(gauges)@, self@),
    {
        let level: i64 = gauges.get(self.gauge);
        gauges.set(self.gauge, level.wrapping_sub(1));
    }
}

/// Releases the guard, if there is one.
pub fn release_opt(guard: Option<ActiveGuard>, gauges: &mut Gauges)
    ensures
        old(gauges)@.len() == 8,
        final(gauges)@ == lowered_opt(old(gauges)@, guard_view(guard)),
{
    proof {
        gauges.lemma_places();
    }
    if let Some(guard) = guard {
        guard.release(gauges);
    }
}

/// The two families of requests.
#[derive(Clone, Copy, Debug, PartialEq, Eq, Structural)]
pub enum FuseReqKind {
    Metadata,
    Stream,
}

impl FuseReqKind {
    /// The gauge that counts the requests of this kind, as a value.
    pub open spec fn gauge(self) -> GaugeId {
        match self {
            FuseReqKind::Metadata => GaugeId::ActiveMetadata,
            FuseReqKind::Stream => GaugeId::ActiveStream,
        }
    }

    /// The gauge that counts the requests of this kind whose reply is owed.
    pub fn active_gauge(self) -> (r: GaugeId)
        ensures
            r == self.gauge(),
    {
        match self {
            FuseReqKind::Metadata => GaugeId::ActiveMetadata,
            FuseReqKind::Stream => GaugeId::ActiveStream,
        }
    }
}

/// The labels under which a request is counted.
#[derive(Clone, Copy, Debug, PartialEq, Eq, Structural)]
pub struct FuseReqLabels {
    pub opcode: FuseOpCode,
    pub kind: FuseReqKind,
    pub request_bytes: u32,
}

/// How a file system operation ended.
#[derive(Clone, Copy, Debug, PartialEq, Eq, Structural)]
pub enum FuseReqStatus {
    Success,
    Error,
    /// The operation is not offered at all.
    Unsupported,
    /// The kernel interrupted the operation.
    Interrupted,
}

/// Why an operation is not offered.
#[derive(Clone, Copy, Debug, PartialEq, Eq, Structural)]
pub enum UnsupportedReason {
    /// The kernel sent an opcode that has no name here.
    UnknownOpcode,
    /// The opcode is known and has no implementation on this path.
    UnimplementedOpcode,
}

impl UnsupportedReason {
    /// The label that metrics carry.
    pub fn as_str(self) -> (r: &'static str)
        ensures
            self == UnsupportedReason::UnknownOpcode ==> r@ == "unknown_opcode"@,
            self == UnsupportedReason::UnimplementedOpcode ==> r@ == "unimplemented_opcode"@,
    {
        match self {
            UnsupportedReason::UnknownOpcode => "unknown_opcode",
            UnsupportedReason::UnimplementedOpcode => "unimplemented_opcode",
        }
    }
}

/// The io families of the stream metrics.
#[derive(Clone, Copy, Debug, PartialEq, Eq, Structural)]
pub enum IoType {
    Read,
    Write,
    Flush,
    Fsync,
    Release,
}

/// How the write of a reply to the kernel ended.
#[derive(Clone, Copy, Debug, PartialEq, Eq, Structural)]
pub enum WriteOutcome {
    Success,
    Failed { errno: Option<i32> },
}

/// The family whose dispatch latency a stream opcode is timed under, as a value.
pub open spec fn dispatch_io(opcode: FuseOpCode) -> Option<IoType> {
    match opcode {
        FuseOpCode::Read => Some(IoType::Read),
        FuseOpCode::Write => Some(IoType::Write),
        _ => None,
    }
}

/// The family whose lifecycle a stream opcode belongs to, as a value.
pub open spec fn lifecycle_io(opcode: FuseOpCode) -> Option<IoType> {
    match opcode {
        FuseOpCode::Flush => Some(IoType::Flush),
        FuseOpCode::Fsync => Some(IoType::Fsync),
        FuseOpCode::Release => Some(IoType::Release),
        _ => None,
    }
}

/// The family whose dispatch latency `opcode` is timed under: reads and writes.
pub fn dispatch_io_type(opcode: FuseOpCode) -> (r: Option<IoType>)
    ensures
        r == dispatch_io(opcode),
{
    match opcode {
        FuseOpCode::Read => Some(IoType::Read),
        FuseOpCode::Write => Some(IoType::Write),
        _ => None,
    }
}

/// The family whose lifecycle `opcode` belongs to: flush, fsync and release.
pub fn lifecycle_io_type(opcode: FuseOpCode) -> (r: Option<IoType>)
    ensures
        r == lifecycle_io(opcode),
{
    match opcode {
        FuseOpCode::Flush => Some(IoType::Flush),
        FuseOpCode::Fsync => Some(IoType::Fsync),
        FuseOpCode::Release => Some(IoType::Release),
        _ => None,
    }
}

} // verus!
