//! What an errno means, as the standard library classifies it.

use std::io::ErrorKind::{
    AddrInUse as StdAddrInUse, AddrNotAvailable as StdAddrNotAvailable,
    AlreadyExists as StdAlreadyExists, ArgumentListTooLong as StdArgumentListTooLong,
    BrokenPipe as StdBrokenPipe, ConnectionAborted as StdConnectionAborted,
    ConnectionRefused as StdConnectionRefused, ConnectionReset as StdConnectionReset,
    CrossesDevices as StdCrossesDevices, Deadlock as StdDeadlock,
    DirectoryNotEmpty as StdDirectoryNotEmpty, ExecutableFileBusy as StdExecutableFileBusy,
    FileTooLarge as StdFileTooLarge, HostUnreachable as StdHostUnreachable,
    Interrupted as StdInterrupted, InvalidFilename as StdInvalidFilename,
    InvalidInput as StdInvalidInput, IsADirectory as StdIsADirectory,
    NetworkDown as StdNetworkDown, NetworkUnreachable as StdNetworkUnreachable,
    NotADirectory as StdNotADirectory, NotConnected as StdNotConnected, NotFound as StdNotFound,
    NotSeekable as StdNotSeekable, OutOfMemory as StdOutOfMemory,
    PermissionDenied as StdPermissionDenied, QuotaExceeded as StdQuotaExceeded,
    ReadOnlyFilesystem as StdReadOnlyFilesystem, ResourceBusy as StdResourceBusy,
    StaleNetworkFileHandle as StdStaleNetworkFileHandle, StorageFull as StdStorageFull,
    TimedOut as StdTimedOut, TooManyLinks as StdTooManyLinks, Unsupported as StdUnsupported,
    WouldBlock as StdWouldBlock,
};

use vstd::prelude::*;

use self::ErrorKind::{
    AddrInUse, AddrNotAvailable, AlreadyExists, ArgumentListTooLong, BrokenPipe,
    ConnectionAborted, ConnectionRefused, ConnectionReset, CrossesDevices, Deadlock,
    DirectoryNotEmpty, ExecutableFileBusy, FileTooLarge, HostUnreachable, Interrupted,
    InvalidFilename, InvalidInput, IsADirectory, NetworkDown, NetworkUnreachable, NotADirectory,
    NotConnected, NotFound, NotSeekable, OutOfMemory, PermissionDenied, QuotaExceeded,
    ReadOnlyFilesystem, ResourceBusy, StaleNetworkFileHandle, StorageFull, TimedOut, TooManyLinks,
    Unsupported, WouldBlock, Uncategorized,
};

verus! {

/// What a host failure means to the caller: the kinds of `std::io::ErrorKind`
/// that an operating system failure can have, and `Other` for a decision of this
/// crate that none of them fits.
#[derive(Debug, Clone, Copy, PartialEq, Eq, Structural)]
pub enum ErrorKind {
    NotFound,
    PermissionDenied,
    AlreadyExists,
    InvalidInput,
    Unsupported,
    QuotaExceeded,
    OutOfMemory,
    Interrupted,
    WouldBlock,
    TimedOut,
    ResourceBusy,
    Deadlock,
    ArgumentListTooLong,
    BrokenPipe,
    StorageFull,
    FileTooLarge,
    ReadOnlyFilesystem,
    NotSeekable,
    ExecutableFileBusy,
    InvalidFilename,
    IsADirectory,
    NotADirectory,
    DirectoryNotEmpty,
    TooManyLinks,
    CrossesDevices,
    StaleNetworkFileHandle,
    AddrInUse,
    AddrNotAvailable,
    ConnectionAborted,
    ConnectionRefused,
    ConnectionReset,
    NotConnected,
    HostUnreachable,
    NetworkDown,
    NetworkUnreachable,
    /// A failure of a kind that the standard library keeps without a name.
    Uncategorized,
    Other,
}

/// The kind that the standard library gives an errno.
pub uninterp spec fn os_error_kind(errno: i32) -> ErrorKind;

/// An errno that means "access is missing": on Linux, 1 is `EPERM` and 13 is
/// `EACCES`.
pub open spec fn denies_access(errno: i32) -> bool {
    errno == 1 || errno == 13
}

/// Asks `std::io::Error::from_raw_os_error(errno).kind()`.
///
/// Trusted: the kind depends on the errno alone, and `EPERM` and `EACCES` are
/// permission failures. The rest of the standard library's table is left unsaid.
/// Each kind that can be named stands for itself; those that cannot are
/// `Uncategorized`.
#[verifier::external_body]
pub(crate) fn decode_error_kind(errno: i32) -> (kind: ErrorKind)
    ensures
        kind == os_error_kind(errno),
        denies_access(errno) ==> kind == ErrorKind::PermissionDenied,
{
    match std::io::Error::from_raw_os_error(errno).kind() {
        StdNotFound => NotFound, StdPermissionDenied => PermissionDenied, StdAlreadyExists => AlreadyExists,
        StdInvalidInput => InvalidInput, StdUnsupported => Unsupported, StdQuotaExceeded => QuotaExceeded,
        StdOutOfMemory => OutOfMemory, StdInterrupted => Interrupted, StdWouldBlock => WouldBlock,
        StdTimedOut => TimedOut, StdResourceBusy => ResourceBusy, StdDeadlock => Deadlock,
        StdArgumentListTooLong => ArgumentListTooLong, StdBrokenPipe => BrokenPipe, StdStorageFull => StorageFull,
        StdFileTooLarge => FileTooLarge, StdReadOnlyFilesystem => ReadOnlyFilesystem, StdNotSeekable => NotSeekable,
        StdExecutableFileBusy => ExecutableFileBusy, StdInvalidFilename => InvalidFilename, StdIsADirectory => IsADirectory,
        StdNotADirectory => NotADirectory, StdDirectoryNotEmpty => DirectoryNotEmpty, StdTooManyLinks => TooManyLinks,
        StdCrossesDevices => CrossesDevices, StdStaleNetworkFileHandle => StaleNetworkFileHandle, StdAddrInUse => AddrInUse,
        StdAddrNotAvailable => AddrNotAvailable, StdConnectionAborted => ConnectionAborted, StdConnectionRefused => ConnectionRefused,
        StdConnectionReset => ConnectionReset, StdNotConnected => NotConnected, StdHostUnreachable => HostUnreachable,
        StdNetworkDown => NetworkDown, StdNetworkUnreachable => NetworkUnreachable, _ => Uncategorized,
    }
}

} // verus!
