# fuse_channel

The decision core of a FUSE session channel, verified with Verus.

A FUSE daemon has two ends on `/dev/fuse`. The receiver takes requests in and
dispatches them to a file system; the sender takes queued replies and delivers
them. This crate decides: which transfer is used, when the receive loop goes on,
where a request is routed, what is answered, what is counted and which gauge is
held by whom. It is written as functions on plain values, each with a contract.

- `src/` is the verified library. `src/laws.rs` states what holds across its
  functions: a metered request is answered at most once, every gauge that is
  raised comes down again, a failed delivery does not change how an operation is
  reported, and so on.
- `src/buffer.rs` holds the trusted items: three calls into the `bytes` crate.
- `tests/` runs the library on concrete requests.
- `app/` is the shell around it, in ordinary Rust: descriptors and pipes, the
  tokio tasks and channels, the clock and the log.
