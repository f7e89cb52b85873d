//! The failed operation, its resource, and the host cause.

use vstd::prelude::*;

use crate::host::{HostError, HostErrorView};

verus! {

/// A failed operation on a VM or a vCPU.
#[derive(Debug)]
pub enum Error {
    /// Opening the host's hypervisor or creating a VM on it.
    CreateVm(HostError),
    /// Mapping host memory into the guest.
    MapMemory { guest_addr: u64, size: usize, source: HostError },
    /// Removing a mapping from the guest.
    UnmapMemory { guest_addr: u64, size: usize, source: HostError },
    /// Creating a vCPU, or arming the kicks that reach it.
    CreateVcpu { id: u32, source: HostError },
    /// Setting the level of an interrupt line.
    SetIrqLine { line: u32, source: HostError },
    /// Entering the guest.
    RunVcpu { id: u32, source: HostError },
    /// Completing a pending access before the vCPU stops.
    CompletePendingIo { id: u32, source: HostError },
    /// Forcing a vCPU out of the guest.
    KickVcpu { id: u32, source: HostError },
    /// An exit this backend cannot dispatch.
    UnhandledExit { id: u32, reason: String },
}

/// An [`Error`] with its texts as sequences of characters.
#[verifier::ext_equal]
pub enum ErrorView {
    CreateVm(HostErrorView),
    MapMemory { guest_addr: u64, size: usize, source: HostErrorView },
    UnmapMemory { guest_addr: u64, size: usize, source: HostErrorView },
    CreateVcpu { id: u32, source: HostErrorView },
    SetIrqLine { line: u32, source: HostErrorView },
    RunVcpu { id: u32, source: HostErrorView },
    CompletePendingIo { id: u32, source: HostErrorView },
    KickVcpu { id: u32, source: HostErrorView },
    UnhandledExit { id: u32, reason: Seq<char> },
}

impl View for Error {
    type V = ErrorView;

    open spec fn view(&self) -> ErrorView {
        match *self {
            Error::CreateVm(source) => ErrorView::CreateVm(source@),
            Error::MapMemory { guest_addr, size, source } => ErrorView::MapMemory {
                guest_addr,
                size,
                source: source@,
            },
            Error::UnmapMemory { guest_addr, size, source } => ErrorView::UnmapMemory {
                guest_addr,
                size,
                source: source@,
            },
            Error::CreateVcpu { id, source } => ErrorView::CreateVcpu { id, source: source@ },
            Error::SetIrqLine { line, source } => ErrorView::SetIrqLine { line, source: source@ },
            Error::RunVcpu { id, source } => ErrorView::RunVcpu { id, source: source@ },
            Error::CompletePendingIo { id, source } => ErrorView::CompletePendingIo {
                id,
                source: source@,
            },
            Error::KickVcpu { id, source } => ErrorView::KickVcpu { id, source: source@ },
            Error::UnhandledExit { id, reason } => ErrorView::UnhandledExit {
                id,
                reason: reason@,
            },
        }
    }
}

/// A result with its error as a view.
pub open spec fn outcome<T>(result: Result<T, Error>) -> Result<T, ErrorView> {
    match result {
        Ok(value) => Ok(value),
        Err(error) => Err(error@),
    }
}

/// An error's view says what the error itself says: the same operation and
/// resource, and the view of its cause or the text of its reason.
pub proof fn an_error_is_viewed_as_it_is(error: Error)
    ensures
        match error {
            Error::CreateVm(source) => error@ == ErrorView::CreateVm(source@),
            Error::MapMemory { guest_addr, size, source } => error@ matches ErrorView::MapMemory {
                guest_addr: at,
                size: len,
                source: cause,
            } && at == guest_addr && len == size && cause == source@,
            Error::UnmapMemory { guest_addr, size, source } => error@
                matches ErrorView::UnmapMemory { guest_addr: at, size: len, source: cause } && at
                == guest_addr && len == size && cause == source@,
            Error::CreateVcpu { id, source } => error@ matches ErrorView::CreateVcpu {
                id: named,
                source: cause,
            } && named == id && cause == source@,
            Error::SetIrqLine { line, source } => error@ matches ErrorView::SetIrqLine {
                line: named,
                source: cause,
            } && named == line && cause == source@,
            Error::RunVcpu { id, source } => error@ matches ErrorView::RunVcpu {
                id: named,
                source: cause,
            } && named == id && cause == source@,
            Error::CompletePendingIo { id, source } => error@
                matches ErrorView::CompletePendingIo { id: named, source: cause } && named == id
                && cause == source@,
            Error::KickVcpu { id, source } => error@ matches ErrorView::KickVcpu {
                id: named,
                source: cause,
            } && named == id && cause == source@,
            Error::UnhandledExit { id, reason } => error@ matches ErrorView::UnhandledExit {
                id: named,
                reason: text,
            } && named == id && text == reason@,
        },
{
}

/// Looking at a result changes neither its success nor its failure.
pub proof fn a_result_is_viewed_as_it_is<T>(result: Result<T, Error>)
    ensures
        result matches Ok(value) ==> outcome(result) == Ok::<T, ErrorView>(value),
        result matches Err(error) ==> outcome(result) == Err::<T, ErrorView>(error@),
{
}

} // verus!
