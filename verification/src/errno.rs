//! Error numbers and the errors that carry them.
use vstd::prelude::*;

verus! {

/// `ENOENT`: the request is no longer known to the kernel.
///
/// The numbers here are Linux's, in the generic numbering that x86-64 and
/// AArch64 share. They are part of the FUSE wire format.
pub const ENOENT: i32 = 2;

/// `EINTR`: interrupted.
pub const EINTR: i32 = 4;

/// `EAGAIN`: nothing to read right now.
pub const EAGAIN: i32 = 11;

/// `ENODEV`: the file system was unmounted.
pub const ENODEV: i32 = 19;

/// `ENOSYS`: the operation is not implemented.
pub const ENOSYS: i32 = 38;

/// An error of the file system side: what a reply frame reports to the kernel.
#[derive(Clone, Copy, Debug, PartialEq, Eq, Structural)]
pub struct FuseError {
    pub errno: i32,
}

/// An error of the transfer side.
#[derive(Clone, Copy, Debug, PartialEq, Eq, Structural)]
pub enum IoError {
    /// The operating system refused, with this error number.
    Os(i32),
    /// Fewer bytes than a request header arrived.
    ShortRead,
    /// The two halves of a splice moved different numbers of bytes.
    SpliceMismatch { write_len: usize, read_len: usize },
    /// A splice was asked for without a pipe.
    NoPipe,
    /// A reply was written only in part.
    ShortWrite { written: usize, len: usize },
    /// The reply channel has no receiver any more.
    ChannelClosed,
}

/// What ends a dispatch or the receive loop with an error.
#[derive(Clone, Copy, Debug, PartialEq, Eq, Structural)]
pub enum SessionError {
    Io(IoError),
    Fuse(FuseError),
}

impl IoError {
    /// The operating system's error number behind `self`, as a value.
    pub open spec fn os_errno(self) -> Option<i32> {
        match self {
            IoError::Os(errno) => Some(errno),
            _ => None,
        }
    }

    /// The operating system's error number behind this error, if it has one.
    /// The errors that this crate finds by itself have none.
    pub fn raw_os_error(&self) -> (r: Option<i32>)
        ensures
            r == self.os_errno(),
    {
        match self {
            IoError::Os(errno) => Some(*errno),
            _ => None,
        }
    }
}

} // verus!
