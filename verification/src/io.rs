//! Operating-system failures as plain values.

use vstd::prelude::*;

verus! {

/// Portable category of an operating-system failure.
#[derive(Clone, Copy, Debug, PartialEq, Eq, Structural)]
#[non_exhaustive]
pub enum ErrorKind {
    /// An entity was not found.
    NotFound,
    /// The operation lacked the necessary privileges.
    PermissionDenied,
    /// The connection was refused by the remote server.
    ConnectionRefused,
    /// The connection was reset by the remote server.
    ConnectionReset,
    /// The remote host is not reachable.
    HostUnreachable,
    /// The network containing the remote host is not reachable.
    NetworkUnreachable,
    /// The connection was terminated by the remote server.
    ConnectionAborted,
    /// The operation failed because it was not connected yet.
    NotConnected,
    /// A socket address could not be bound because it is in use.
    AddrInUse,
    /// The requested address was not local.
    AddrNotAvailable,
    /// The system's networking is down.
    NetworkDown,
    /// The other end of a pipe was closed.
    BrokenPipe,
    /// An entity already exists.
    AlreadyExists,
    /// The operation needs to block to complete.
    WouldBlock,
    /// A filesystem object is, unexpectedly, not a directory.
    NotADirectory,
    /// A filesystem object is, unexpectedly, a directory.
    IsADirectory,
    /// A non-empty directory was specified where an empty one was expected.
    DirectoryNotEmpty,
    /// The filesystem or storage medium is read-only.
    ReadOnlyFilesystem,
    /// A network file handle is stale.
    StaleNetworkFileHandle,
    /// A parameter was incorrect.
    InvalidInput,
    /// Data not valid for the operation were encountered.
    InvalidData,
    /// The operation's timeout expired.
    TimedOut,
    /// A write returned zero bytes.
    WriteZero,
    /// The underlying storage is full.
    StorageFull,
    /// Seek on an unseekable file.
    NotSeekable,
    /// A quota was exceeded.
    QuotaExceeded,
    /// A file is larger than allowed or supported.
    FileTooLarge,
    /// A resource is busy.
    ResourceBusy,
    /// An executable file is busy.
    ExecutableFileBusy,
    /// A deadlock was avoided.
    Deadlock,
    /// A rename or link crosses devices.
    CrossesDevices,
    /// Too many links to one filesystem object.
    TooManyLinks,
    /// A filename was invalid.
    InvalidFilename,
    /// A program's argument list is too long.
    ArgumentListTooLong,
    /// The operation was interrupted and can be retried.
    Interrupted,
    /// The operation is unsupported on this platform.
    Unsupported,
    /// An end of file was reached prematurely.
    UnexpectedEof,
    /// Memory could not be allocated.
    OutOfMemory,
    /// A failure that belongs to no other category.
    Other,
    /// A failure that the platform does not categorise.
    Uncategorized,
}

/// One operating-system failure: its category, its text and the code it came from.
#[derive(Clone, Debug, PartialEq, Eq)]
pub struct IoError {
    /// Portable category.
    pub kind: ErrorKind,
    /// Failure text.
    pub message: String,
    /// The operating system's own code, where there is one.
    pub raw_os_error: Option<i32>,
}

impl IoError {
    /// Whether this is the failure of category `kind` with the text `message` and no code.
    pub open spec fn is_made_of(self, kind: ErrorKind, message: Seq<char>) -> bool {
        &&& self.kind == kind
        &&& self.message@ == message
        &&& self.raw_os_error is None
    }

    /// Builds a failure that no operating-system code stands behind.
    pub fn new(kind: ErrorKind, message: &str) -> (error: Self)
        ensures
            error.is_made_of(kind, message@),
    {
        IoError { kind, message: message.to_owned(), raw_os_error: None }
    }

    /// Builds a failure of no particular category.
    pub fn other(message: &str) -> (error: Self)
        ensures
            error.is_made_of(ErrorKind::Other, message@),
    {
        IoError::new(ErrorKind::Other, message)
    }

    /// Whether the operation was interrupted by a signal and may be retried.
    pub fn is_interrupted(&self) -> (interrupted: bool)
        ensures
            interrupted == (self.kind == ErrorKind::Interrupted),
    {
        self.kind == ErrorKind::Interrupted
    }

    /// Whether the operation would have had to wait.
    pub fn is_would_block(&self) -> (would_block: bool)
        ensures
            would_block == (self.kind == ErrorKind::WouldBlock),
    {
        self.kind == ErrorKind::WouldBlock
    }
}

/// `rustix::io::Errno::SRCH` and `rustix::io::Errno::raw_os_error`: the code of the failure
/// that reports a process or process group as absent. It is the platform's `ESRCH`, whose
/// number differs from platform to platform, so nothing is claimed of it.
#[verifier::external_body]
pub(crate) fn no_such_process_code() -> (code: i32) {
    rustix::io::Errno::SRCH.raw_os_error()
}

/// Whether `code` is what the platform gave as the code of an absent process group.
pub open(crate) spec fn is_absent_code(code: i32) -> bool {
    call_ensures(no_such_process_code, (), code)
}

/// The code of an absent process group is one that the platform gave.
pub(crate) proof fn law_the_platform_names_the_absent_code(code: i32)
    requires
        is_absent_code(code),
    ensures
        call_ensures(no_such_process_code, (), code),
{
}

} // verus!
