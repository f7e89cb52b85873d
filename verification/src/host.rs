//! What the host reports: errno values, the errors built from them, and the
//! architecture the backend runs on.

use vstd::prelude::*;

use crate::kind::{decode_error_kind, denies_access, os_error_kind};

pub use crate::kind::ErrorKind;

verus! {

/// The host architectures the backend runs on.
#[derive(Debug, Clone, Copy, PartialEq, Eq, Structural)]
pub enum HostArch {
    X86_64,
    Arm64,
}

/// Why an operation failed on the host, or why it never reached the host.
#[derive(Debug)]
pub enum HostError {
    /// The operating system refused with this errno.
    Os { errno: i32 },
    /// The operating system refused with this errno, which means `kind` here.
    /// The errno stays reachable as the cause.
    Caused { kind: ErrorKind, errno: i32 },
    /// A decision of this crate, with a diagnostic.
    Custom { kind: ErrorKind, message: String },
}

/// A [`HostError`] with its text as a sequence of characters.
#[verifier::ext_equal]
pub enum HostErrorView {
    Os { errno: i32 },
    Caused { kind: ErrorKind, errno: i32 },
    Custom { kind: ErrorKind, message: Seq<char> },
}

impl View for HostError {
    type V = HostErrorView;

    open spec fn view(&self) -> HostErrorView {
        match *self {
            HostError::Os { errno } => HostErrorView::Os { errno },
            HostError::Caused { kind, errno } => HostErrorView::Caused { kind, errno },
            HostError::Custom { kind, message } => HostErrorView::Custom {
                kind,
                message: message@,
            },
        }
    }
}

impl HostErrorView {
    /// The kind the error is reported under.
    pub open spec fn kind(self) -> ErrorKind {
        match self {
            HostErrorView::Os { errno } => os_error_kind(errno),
            HostErrorView::Caused { kind, .. } => kind,
            HostErrorView::Custom { kind, .. } => kind,
        }
    }

    /// The errno the error itself carries.
    pub open spec fn raw_os_error(self) -> Option<i32> {
        match self {
            HostErrorView::Os { errno } => Some(errno),
            _ => None,
        }
    }

    /// The errno reachable from the error, as itself or as its cause.
    pub open spec fn host_errno(self) -> Option<i32> {
        match self {
            HostErrorView::Os { errno } => Some(errno),
            HostErrorView::Caused { errno, .. } => Some(errno),
            HostErrorView::Custom { .. } => None,
        }
    }

    /// The diagnostic, where this crate wrote one.
    pub open spec fn message(self) -> Option<Seq<char>> {
        match self {
            HostErrorView::Custom { message, .. } => Some(message),
            _ => None,
        }
    }
}

impl HostError {
    /// The failure the operating system reported as `errno`.
    pub fn from_raw_os_error(errno: i32) -> (error: HostError)
        ensures
            error == (HostError::Os { errno }),
    {
        HostError::Os { errno }
    }

    /// A failure this crate decided on, under `kind`.
    pub fn new(kind: ErrorKind, message: String) -> (error: HostError)
        ensures
            error == (HostError::Custom { kind, message }),
    {
        HostError::Custom { kind, message }
    }

    /// The kind the error is reported under.
    pub fn kind(&self) -> (kind: ErrorKind)
        ensures
            kind == self@.kind(),
            self@.raw_os_error() matches Some(errno) && denies_access(errno) ==> kind
                == ErrorKind::PermissionDenied,
            match *self {
                HostError::Os { errno } => kind == os_error_kind(errno) && (errno == 1 || errno
                    == 13 ==> kind == ErrorKind::PermissionDenied),
                HostError::Caused { kind: decided, .. } => kind == decided,
                HostError::Custom { kind: decided, .. } => kind == decided,
            },
    {
        match self {
            HostError::Os { errno } => decode_error_kind(*errno),
            HostError::Caused { kind, .. } => *kind,
            HostError::Custom { kind, .. } => *kind,
        }
    }

    /// The errno the error itself carries.
    pub fn raw_os_error(&self) -> (errno: Option<i32>)
        ensures
            errno == self@.raw_os_error(),
            match *self {
                HostError::Os { errno: own } => errno == Some(own),
                _ => errno is None,
            },
    {
        match self {
            HostError::Os { errno } => Some(*errno),
            _ => None,
        }
    }

    /// The errno reachable from the error, as itself or as its cause.
    pub fn host_errno(&self) -> (errno: Option<i32>)
        ensures
            errno == self@.host_errno(),
            match *self {
                HostError::Os { errno: own } => errno == Some(own),
                HostError::Caused { errno: cause, .. } => errno == Some(cause),
                HostError::Custom { .. } => errno is None,
            },
    {
        match self {
            HostError::Os { errno } => Some(*errno),
            HostError::Caused { errno, .. } => Some(*errno),
            HostError::Custom { .. } => None,
        }
    }

    /// The diagnostic, where this crate wrote one.
    pub fn message(&self) -> (message: Option<&str>)
        ensures
            match message {
                Some(text) => self@.message() == Some(text@),
                None => self@.message() is None,
            },
            match *self {
                HostError::Custom { message: written, .. } => message matches Some(text) && text@
                    == written@,
                _ => message is None,
            },
    {
        match self {
            HostError::Custom { message, .. } => Some(message.as_str()),
            _ => None,
        }
    }
}

/// A host operation's result with its error as a view.
pub open spec fn host_outcome<T>(result: Result<T, HostError>) -> Result<T, HostErrorView> {
    match result {
        Ok(value) => Ok(value),
        Err(error) => Err(error@),
    }
}

/// A failure to signal or to change the signal mask: the call returns the
/// error number instead of setting errno.
pub open spec fn returned_errno(failure: i32) -> Result<(), HostErrorView> {
    if failure == 0 {
        Ok(())
    } else {
        Err(HostErrorView::Os { errno: failure })
    }
}

/// The errno of a host call as a host error.
pub open spec fn reported_errno(result: Result<(), i32>) -> Result<(), HostErrorView> {
    match result {
        Ok(_) => Ok(()),
        Err(errno) => Err(HostErrorView::Os { errno }),
    }
}

/// The errno of a host call as a host error.
pub(crate) fn host_answer(result: Result<(), i32>) -> (answer: Result<(), HostError>)
    ensures
        host_outcome(answer) == reported_errno(result),
        match result {
            Ok(_) => answer is Ok,
            Err(errno) => answer matches Err(HostError::Os { errno: kept }) && kept == errno,
        },
{
    match result {
        Ok(()) => Ok(()),
        Err(errno) => Err(HostError::from_raw_os_error(errno)),
    }
}

/// `libc::EINTR`: a signal interrupted the call.
///
/// Trusted: the constant is 4 on every Linux host this crate supports.
#[verifier::external_body]
pub(crate) fn eintr() -> (errno: i32)
    ensures
        errno == 4,
{
    libc::EINTR
}

/// `libc::EAGAIN`: the call should be made again.
///
/// Trusted: the constant is 11 on every Linux host this crate supports.
#[verifier::external_body]
pub(crate) fn eagain() -> (errno: i32)
    ensures
        errno == 11,
{
    libc::EAGAIN
}

/// `libc::ENOENT`: there is no such file.
///
/// Trusted: the constant is 2 on every Linux host this crate supports.
#[verifier::external_body]
fn enoent() -> (errno: i32)
    ensures
        errno == 2,
{
    libc::ENOENT
}

/// `libc::ENXIO`: there is no such device or address.
///
/// Trusted: the constant is 6 on every Linux host this crate supports.
#[verifier::external_body]
fn enxio() -> (errno: i32)
    ensures
        errno == 6,
{
    libc::ENXIO
}

/// `libc::ENODEV`: there is no such device.
///
/// Trusted: the constant is 19 on every Linux host this crate supports.
#[verifier::external_body]
fn enodev() -> (errno: i32)
    ensures
        errno == 19,
{
    libc::ENODEV
}

/// `libc::ENOTTY`: the device does not know the ioctl.
///
/// Trusted: the constant is 25 on every Linux host this crate supports.
#[verifier::external_body]
fn enotty() -> (errno: i32)
    ensures
        errno == 25,
{
    libc::ENOTTY
}

/// `EINTR`: a signal interrupted the call.
pub open spec fn means_interrupted(errno: i32) -> bool {
    errno == 4
}

/// `EAGAIN`: the call should be made again.
pub open spec fn means_retry(errno: i32) -> bool {
    errno == 11
}

/// An errno that means "this host cannot run VMs": no KVM device (`ENOENT`,
/// `ENXIO`, `ENODEV`), or a device that does not speak KVM (`ENOTTY`).
pub open spec fn lacks_virtualization(errno: i32) -> bool {
    errno == 2 || errno == 6 || errno == 19 || errno == 25
}

/// A failure to open or create a VM, under the kind the error contract asks for.
pub open spec fn classified(source: HostErrorView) -> HostErrorView {
    match source {
        HostErrorView::Os { errno } => if lacks_virtualization(errno) {
            HostErrorView::Caused { kind: ErrorKind::Unsupported, errno }
        } else {
            source
        },
        _ => source,
    }
}

/// Marks the errno values that mean "this host cannot run VMs".
///
/// The error contract asks for [`ErrorKind::Unsupported`] on a host without
/// working virtualization. Any other failure is handed on as it came, so a
/// permission failure keeps its errno.
pub fn classify_host_failure(source: HostError) -> (error: HostError)
    ensures
        error@ == classified(source@),
        match source {
            HostError::Os { errno } => if errno == 2 || errno == 6 || errno == 19 || errno == 25 {
                error == (HostError::Caused { kind: ErrorKind::Unsupported, errno })
            } else {
                error == source
            },
            _ => error == source,
        },
{
    match source {
        HostError::Os { errno } => {
            if errno == enoent() || errno == enxio() || errno == enodev() || errno == enotty() {
                HostError::Caused { kind: ErrorKind::Unsupported, errno }
            } else {
                source
            }
        },
        _ => source,
    }
}

/// Classifying a host failure hides no errno: the one the host reported stays
/// reachable, and classifying again changes nothing.
pub proof fn classification_keeps_the_errno(source: HostErrorView)
    ensures
        classified(source).host_errno() == source.host_errno(),
        classified(classified(source)) == classified(source),
{
}

/// The kind an operating system failure is reported under once classified:
/// `Unsupported` when the errno means that the host cannot run VMs, and the
/// standard library's own kind for every other errno, which the error then
/// still carries itself.
pub proof fn classified_failures_have_their_kind(errno: i32)
    ensures
        ({
            let error = classified(HostErrorView::Os { errno });
            if lacks_virtualization(errno) {
                error.kind() == ErrorKind::Unsupported && error.raw_os_error() is None
            } else {
                error.kind() == os_error_kind(errno) && error.raw_os_error() == Some(errno)
            }
        }),
{
}

/// Takes what locking a mutex gave, recovering from a panic in an earlier
/// holder.
///
/// `Err` holds the guard of a poisoned mutex, whose poison `clear_poison`
/// clears. What this crate keeps behind a mutex is consistent whenever its
/// methods are not running, and no method that changes it has begun to when it
/// makes a call that can panic. So the guard is used as it is.
pub fn lock<T, C: FnOnce()>(locked: Result<T, T>, clear_poison: C) -> (guard: T)
    requires
        locked is Err ==> call_requires(clear_poison, ()),
    ensures
        match locked {
            Ok(held) => guard == held,
            Err(held) => guard == held && call_ensures(clear_poison, (), ()),
        },
{
    match locked {
        Ok(guard) => guard,
        Err(poisoned) => {
            clear_poison();
            poisoned
        },
    }
}

/// A host error's view says what the error itself says: the same variant, the
/// same numbers and kind, and the text of its message.
pub proof fn a_host_error_is_viewed_as_it_is(error: HostError)
    ensures
        match error {
            HostError::Os { errno } => {
                &&& error@ == HostErrorView::Os { errno }
                &&& error@.kind() == os_error_kind(errno)
                &&& error@.raw_os_error() == Some(errno)
                &&& error@.host_errno() == Some(errno)
                &&& error@.message() is None
            },
            HostError::Caused { kind, errno } => {
                &&& error@ == HostErrorView::Caused { kind, errno }
                &&& error@.kind() == kind
                &&& error@.raw_os_error() is None
                &&& error@.host_errno() == Some(errno)
                &&& error@.message() is None
            },
            HostError::Custom { kind, message } => {
                &&& error@ == HostErrorView::Custom { kind, message: message@ }
                &&& error@.kind() == kind
                &&& error@.raw_os_error() is None
                &&& error@.host_errno() is None
                &&& error@.message() == Some(message@)
            },
        },
{
}

/// Looking at a host result changes neither its success nor its failure.
pub proof fn a_host_result_is_viewed_as_it_is<T>(result: Result<T, HostError>)
    ensures
        result matches Ok(value) ==> host_outcome(result) == Ok::<T, HostErrorView>(value),
        result matches Err(error) ==> host_outcome(result) == Err::<T, HostErrorView>(error@),
{
}

/// A host call that reports an errno, or returns it, fails with that errno; one
/// that reports none, or returns zero, succeeds.
pub proof fn a_host_call_fails_with_its_errno(errno: i32)
    ensures
        reported_errno(Err(errno)) == Err::<(), _>(HostErrorView::Os { errno }),
        reported_errno(Ok(())) is Ok,
        errno != 0 ==> returned_errno(errno) == Err::<(), _>(HostErrorView::Os { errno }),
        returned_errno(0) is Ok,
{
}

/// The errno values this crate decides by: `EINTR` is 4, `EAGAIN` is 11, and
/// `ENOENT`, `ENXIO`, `ENODEV` and `ENOTTY` are 2, 6, 19 and 25.
pub proof fn errno_values_mean_what_linux_says(errno: i32)
    ensures
        means_interrupted(errno) <==> errno == 4,
        means_retry(errno) <==> errno == 11,
        lacks_virtualization(errno) <==> set![2i32, 6, 19, 25].contains(errno),
        denies_access(errno) <==> set![1i32, 13].contains(errno),
{
}

} // verus!
