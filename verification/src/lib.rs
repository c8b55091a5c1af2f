//! The decision core of a FUSE session channel.
//!
//! A FUSE daemon talks to the kernel over `/dev/fuse`: a receiver turns the
//! bytes it reads into dispatched requests, a sender turns queued replies into
//! writes. Everything that is decided on the way is here, as functions on plain
//! values with contracts: which transfer is used, when the loop goes on, where a
//! request is routed, which reply is owed, which metrics are recorded, and which
//! gauge is held by whom. The transfers themselves, the tasks and the clock
//! belong to the caller, who performs what these functions return and hands the
//! outcome back.
//!
//! * [`errno`] - error numbers and the two error types.
//! * [`request`] - opcodes, operators and decoded requests.
//! * [`metrics`] - gauges, guards, labels and statuses.
//! * [`response`] - reply frames, reply tasks and the reply handle.
//! * [`pending`] - the registry of interruptible requests.
//! * [`buffer`] - the receive buffer.
//! * [`fuse_receiver`] - receiving, routing and dispatching.
//! * [`fuse_sender`] - delivering replies.
//! * [`laws`] - what holds across those functions, over the values that their
//!   contracts speak of.
//! * [`gauge_laws`], [`reply_laws`], [`receiver_laws`], [`sender_laws`] - what each
//!   call does, over its arguments and its result.
pub mod errno;
pub mod request;
pub mod metrics;
pub mod response;
pub mod pending;
pub mod buffer;
pub mod fuse_receiver;
pub mod fuse_sender;
pub mod laws;
pub mod gauge_laws;
pub mod reply_laws;
pub mod receiver_laws;
pub mod sender_laws;
