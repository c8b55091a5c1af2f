[package]
name = "fuse_channel"
version = "0.1.0"
edition = "2021"
publish = false

[dependencies]
bytes = "1"
libc = "0.2"
log = "0.4"
tokio = { version = "1", features = ["rt", "sync", "net", "macros", "time"] }
