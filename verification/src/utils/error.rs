//! Input and output errors.

use vstd::prelude::*;

verus! {

/// What kind of input or output error happened, as far as the components tell
/// errors apart.
#[derive(Debug, Clone, Copy, PartialEq, Eq, Structural)]
pub enum IoErrorKind {
    /// The operation would block, or its timeout passed.
    WouldBlock,
    UnexpectedEof,
    BrokenPipe,
    ConnectionReset,
    ConnectionAborted,
    Other,
}

/// Error from a socket, a device or a channel.
#[derive(Debug)]
pub struct IoError {
    pub kind: IoErrorKind,
    /// Text for the log.
    pub message: String,
}

impl IoError {
    /// Error which has only a kind.
    pub fn from_kind(kind: IoErrorKind) -> (error: Self)
        ensures
            error.kind == kind,
            error.message@ == Seq::<char>::empty(),
    {
        Self { kind, message: String::new() }
    }
}

} // verus!
