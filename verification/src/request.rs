//! Opcodes, operators and decoded requests.
use vstd::prelude::*;

verus! {

/// The operations that the kernel can ask for.
#[derive(Clone, Copy, Debug, PartialEq, Eq, Structural)]
pub enum FuseOpCode {
    Lookup,
    Forget,
    GetAttr,
    SetAttr,
    Readlink,
    Symlink,
    MkNod,
    Mkdir,
    Unlink,
    RmDir,
    Rename,
    Link,
    Open,
    Read,
    Write,
    StatFs,
    Release,
    Fsync,
    SetXAttr,
    GetXAttr,
    ListXAttr,
    RemoveXAttr,
    Flush,
    Init,
    OpenDir,
    ReadDir,
    ReleaseDir,
    FsyncDir,
    GetLk,
    SetLk,
    SetLkW,
    Access,
    Create,
    Interrupt,
    BMap,
    Destroy,
    Ioctl,
    Poll,
    BatchForget,
    FAllocate,
    ReadDirPlus,
    Rename2,
    Lseek,
    /// An opcode that has no name here.
    NotSupported,
}

/// A parsed request body. Only what routing looks at is kept: which operation it
/// is and, for an interrupt, which request it is about.
#[derive(Clone, Copy, Debug, PartialEq, Eq, Structural)]
pub enum FuseOperator {
    Notimplemented,
    Init,
    StatFs,
    Access,
    Lookup,
    GetAttr,
    SetAttr,
    GetXAttr,
    SetXAttr,
    RemoveXAttr,
    ListXAttr,
    OpenDir,
    Mkdir,
    FAllocate,
    ReleaseDir,
    ReadDir,
    ReadDirPlus,
    Forget,
    Open,
    MkNod,
    Create,
    Unlink,
    RmDir,
    Link,
    BatchForget,
    Rename,
    Rename2,
    FSyncDir,
    Destroy,
    Interrupt { unique: u64 },
    Symlink,
    Readlink,
    GetLk,
    SetLk,
    SetLkW,
    Read,
    Write,
    Flush,
    Release,
    FSync,
}

/// What is read from a request header.
#[derive(Clone, Copy, Debug, PartialEq, Eq, Structural)]
pub struct RequestHeader {
    /// Length of the whole request in bytes.
    pub len: u32,
    /// The inode that the request is about.
    pub nodeid: u64,
}

/// A decoded request.
#[derive(Clone, Copy, Debug, PartialEq, Eq, Structural)]
pub struct FuseRequest {
    /// The kernel's number for this request.
    pub unique: u64,
    pub opcode: FuseOpCode,
    /// The header, where it can be read.
    pub header: Option<RequestHeader>,
    /// Whether the decoder counts the request among the audited metadata
    /// requests.
    pub meta: bool,
}

impl FuseRequest {
    /// Whether the opcode is one of the five that move or settle file data.
    pub open spec fn stream(self) -> bool {
        self.opcode == FuseOpCode::Read || self.opcode == FuseOpCode::Write || self.opcode
            == FuseOpCode::Flush || self.opcode == FuseOpCode::Release || self.opcode
            == FuseOpCode::Fsync
    }

    /// Whether the request is dispatched as a stream request.
    pub fn is_stream(&self) -> (r: bool)
        ensures
            r == self.stream(),
    {
        match self.opcode {
            FuseOpCode::Read
            | FuseOpCode::Write
            | FuseOpCode::Flush
            | FuseOpCode::Release
            | FuseOpCode::Fsync => true,
            _ => false,
        }
    }

    /// Whether the kernel may interrupt the request while it waits: the blocking
    /// lock request, and no other.
    pub fn is_interrupt(&self) -> (r: bool)
        ensures
            r == (self.opcode == FuseOpCode::SetLkW),
    {
        self.opcode == FuseOpCode::SetLkW
    }

    /// The length in the header, or zero where the header cannot be read.
    pub open spec fn byte_len(self) -> u32 {
        match self.header {
            Some(h) => h.len,
            None => 0,
        }
    }

    /// The inode in the header, or zero where the header cannot be read.
    pub open spec fn inode(self) -> u64 {
        match self.header {
            Some(h) => h.nodeid,
            None => 0,
        }
    }
}

} // verus!
