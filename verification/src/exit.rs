//! Decoding why a KVM vCPU left the guest.

use kvm_ioctls::VcpuExit::{
    FailEntry as HostFailEntry, Hlt as HostHlt, InternalError as HostInternalError,
    Intr as HostIntr, IoIn as HostIoIn, IoOut as HostIoOut, MmioRead as HostMmioRead,
    MmioWrite as HostMmioWrite, Shutdown as HostShutdown, SystemEvent as HostSystemEvent,
    Unsupported as HostUnsupported,
};

use vstd::prelude::*;
use vstd::slice::slice_to_vec;

use crate::error::{Error, ErrorView};
use crate::host::{
    eagain, eintr, means_interrupted, means_retry, ErrorKind, HostArch, HostError, HostErrorView,
};
use crate::text::{append_decimal, append_hex, decimal, hex};

verus! {

/// An exit as KVM reports it: what this backend reads of
/// `kvm_ioctls::VcpuExit`.
#[derive(Debug)]
pub enum KvmExit<'a> {
    /// An out port instruction, with the port and the data.
    IoOut(u16, &'a [u8]),
    /// An in port instruction, with the port and the buffer to fill.
    IoIn(u16, &'a mut [u8]),
    /// A read of the given MMIO address, with the buffer to fill.
    MmioRead(u64, &'a mut [u8]),
    /// A write to the given MMIO address, with the data.
    MmioWrite(u64, &'a [u8]),
    /// The guest halted.
    Hlt,
    /// The guest shut down, which on x86 is a triple fault.
    Shutdown,
    /// The hardware refused to enter the guest: its reason, and the host CPU.
    FailEntry(u64, u32),
    /// Something interrupted the guest.
    Intr,
    /// KVM failed internally.
    InternalError,
    /// A system event, with its type and data.
    SystemEvent(u32, &'a [u64]),
    /// An exit reason that kvm-ioctls does not know.
    Unsupported(u32),
    /// Any other exit, as kvm-ioctls prints it.
    Other(String),
}

/// A [`KvmExit`] with the contents of its buffer.
pub enum KvmExitView {
    IoOut(u16, Seq<u8>),
    IoIn(u16, Seq<u8>),
    MmioRead(u64, Seq<u8>),
    MmioWrite(u64, Seq<u8>),
    Hlt,
    Shutdown,
    FailEntry(u64, u32),
    Intr,
    InternalError,
    SystemEvent(u32, Seq<u64>),
    Unsupported(u32),
    Other(Seq<char>),
}

impl<'a> View for KvmExit<'a> {
    type V = KvmExitView;

    open spec fn view(&self) -> KvmExitView {
        match *self {
            KvmExit::IoOut(port, bytes) => KvmExitView::IoOut(port, bytes@),
            KvmExit::IoIn(port, bytes) => KvmExitView::IoIn(port, bytes@),
            KvmExit::MmioRead(guest_addr, bytes) => KvmExitView::MmioRead(guest_addr, bytes@),
            KvmExit::MmioWrite(guest_addr, bytes) => KvmExitView::MmioWrite(guest_addr, bytes@),
            KvmExit::Hlt => KvmExitView::Hlt,
            KvmExit::Shutdown => KvmExitView::Shutdown,
            KvmExit::FailEntry(reason, cpu) => KvmExitView::FailEntry(reason, cpu),
            KvmExit::Intr => KvmExitView::Intr,
            KvmExit::InternalError => KvmExitView::InternalError,
            KvmExit::SystemEvent(event, data) => KvmExitView::SystemEvent(event, data@),
            KvmExit::Unsupported(reason) => KvmExitView::Unsupported(reason),
            KvmExit::Other(text) => KvmExitView::Other(text@),
        }
    }
}

/// What `KVM_RUN` reports: an exit, or the errno the ioctl failed with.
pub type KvmOutcome<'a> = Result<KvmExit<'a>, i32>;

/// Why a vCPU left the guest, as the VMM takes it.
#[allow(inconsistent_fields)]
#[derive(Debug)]
pub enum VcpuExit<'a> {
    /// The guest reads `bytes.len()` bytes at `guest_addr`; the VMM fills them in.
    MmioRead { guest_addr: u64, bytes: &'a mut [u8] },
    /// The guest writes `bytes` at `guest_addr`.
    MmioWrite { guest_addr: u64, bytes: &'a [u8] },
    /// The guest reads from `port`; the VMM fills `bytes` in.
    IoIn { port: u16, bytes: &'a mut [u8] },
    /// The guest writes `bytes` to `port`.
    IoOut { port: u16, bytes: &'a [u8] },
    /// Something interrupted the guest.
    Interrupted,
    /// The guest halted.
    Halted,
    /// The guest reset itself.
    Reset,
    /// The guest shut down.
    Shutdown,
}

/// A [`VcpuExit`] with the bytes of its buffer.
#[allow(inconsistent_fields)]
#[verifier::ext_equal]
pub enum ExitView {
    MmioRead { guest_addr: u64, bytes: Seq<u8> },
    MmioWrite { guest_addr: u64, bytes: Seq<u8> },
    IoIn { port: u16, bytes: Seq<u8> },
    IoOut { port: u16, bytes: Seq<u8> },
    Interrupted,
    Halted,
    Reset,
    Shutdown,
}

impl<'a> View for VcpuExit<'a> {
    type V = ExitView;

    open spec fn view(&self) -> ExitView {
        match *self {
            VcpuExit::MmioRead { guest_addr, bytes } => ExitView::MmioRead {
                guest_addr,
                bytes: bytes@,
            },
            VcpuExit::MmioWrite { guest_addr, bytes } => ExitView::MmioWrite {
                guest_addr,
                bytes: bytes@,
            },
            VcpuExit::IoIn { port, bytes } => ExitView::IoIn { port, bytes: bytes@ },
            VcpuExit::IoOut { port, bytes } => ExitView::IoOut { port, bytes: bytes@ },
            VcpuExit::Interrupted => ExitView::Interrupted,
            VcpuExit::Halted => ExitView::Halted,
            VcpuExit::Reset => ExitView::Reset,
            VcpuExit::Shutdown => ExitView::Shutdown,
        }
    }
}

/// The result of a run with its exit and its error as views.
pub open spec fn run_outcome(result: Result<VcpuExit<'_>, Error>) -> Result<ExitView, ErrorView> {
    match result {
        Ok(exit) => Ok(exit@),
        Err(error) => Err(error@),
    }
}

/// `kvm_bindings::KVM_SYSTEM_EVENT_SHUTDOWN`: the guest asked to shut down.
///
/// Trusted: the constant is 1 on every architecture this crate supports.
#[verifier::external_body]
fn system_event_shutdown() -> (event: u32)
    ensures
        event == 1,
{
    kvm_bindings::KVM_SYSTEM_EVENT_SHUTDOWN
}

/// `kvm_bindings::KVM_SYSTEM_EVENT_RESET`: the guest asked to be reset.
///
/// Trusted: the constant is 2 on every architecture this crate supports.
#[verifier::external_body]
fn system_event_reset() -> (event: u32)
    ensures
        event == 2,
{
    kvm_bindings::KVM_SYSTEM_EVENT_RESET
}

/// A system event by which the guest shuts down.
pub open spec fn means_shutdown(event: u32) -> bool {
    event == 1
}

/// A system event by which the guest resets itself.
pub open spec fn means_reset(event: u32) -> bool {
    event == 2
}

/// The guest was left because something interrupted it: `EINTR` from the
/// ioctl, or a decoded `Intr` exit.
pub open spec fn interrupted(outcome: KvmOutcome<'_>) -> bool {
    match outcome {
        Ok(exit) => exit is Intr,
        Err(errno) => means_interrupted(errno),
    }
}

/// Reports whether the guest was left because something interrupted it.
///
/// KVM reports an interruption two ways: as `EINTR` from the ioctl, and as a
/// decoded `Intr` exit. Both mean the same thing here.
pub fn is_interrupt(outcome: &KvmOutcome<'_>) -> (interrupt: bool)
    ensures
        interrupt == interrupted(*outcome),
        match *outcome {
            Ok(exit) => interrupt == (exit is Intr),
            Err(errno) => interrupt == (errno == 4),
        },
{
    match outcome {
        Ok(KvmExit::Intr) => true,
        Err(errno) => *errno == eintr(),
        Ok(_) => false,
    }
}

/// The widths a single port instruction can produce.
pub open spec fn single_access(len: int) -> bool {
    len == 1 || len == 2 || len == 4
}

/// Diagnostic of a port access of another width.
pub open spec fn string_access(len: int) -> Seq<char> {
    "string port I/O of "@ + decimal(len) + " bytes"@
}

/// Accepts the access widths a single port instruction can produce.
///
/// kvm-ioctls hands over `count * size` bytes without the count, so a string
/// instruction is only visible as an unusual width. A `rep outsw` of exactly two
/// words is indistinguishable from one 4-byte access and would be dispatched as
/// one; closing that gap needs `kvm_run.io.count`, which kvm-ioctls hides.
pub fn access_width(len: usize) -> (result: Result<(), String>)
    ensures
        match result {
            Ok(_) => single_access(len as int),
            Err(reason) => !single_access(len as int) && reason@ == string_access(len as int),
        },
        result is Ok <==> len == 1 || len == 2 || len == 4,
        result matches Err(reason) ==> reason@ == "string port I/O of "@ + decimal(len as int)
            + " bytes"@,
{
    match len {
        1 | 2 | 4 => Ok(()),
        other => {
            let mut reason = "string port I/O of ".to_owned();
            append_decimal(&mut reason, other as u64);
            reason.append(" bytes");
            Err(reason)
        },
    }
}

/// Why a port access cannot be dispatched on `arch`, if it cannot.
pub open spec fn port_refusal(arch: HostArch, port: u16, len: int) -> Option<Seq<char>> {
    if arch != HostArch::X86_64 {
        Some("port I/O on port "@ + hex(port as int) + " on a non-x86 host"@)
    } else if !single_access(len) {
        Some(string_access(len) + " on port "@ + hex(port as int))
    } else {
        None
    }
}

/// What an exit means to the VMM, or why this backend cannot dispatch it.
pub open spec fn exit_meaning(arch: HostArch, exit: KvmExit<'_>) -> Result<ExitView, Seq<char>> {
    match exit {
        KvmExit::MmioRead(guest_addr, bytes) => Ok(
            ExitView::MmioRead { guest_addr, bytes: bytes@ },
        ),
        KvmExit::MmioWrite(guest_addr, bytes) => Ok(
            ExitView::MmioWrite { guest_addr, bytes: bytes@ },
        ),
        KvmExit::IoIn(port, bytes) => match port_refusal(arch, port, bytes@.len() as int) {
            Some(reason) => Err(reason),
            None => Ok(ExitView::IoIn { port, bytes: bytes@ }),
        },
        KvmExit::IoOut(port, bytes) => match port_refusal(arch, port, bytes@.len() as int) {
            Some(reason) => Err(reason),
            None => Ok(ExitView::IoOut { port, bytes: bytes@ }),
        },
        KvmExit::Intr => Ok(ExitView::Interrupted),
        KvmExit::Hlt => Ok(ExitView::Halted),
        KvmExit::Shutdown => Ok(ExitView::Reset),
        KvmExit::SystemEvent(event, _) => if means_shutdown(event) {
            Ok(ExitView::Shutdown)
        } else if means_reset(event) {
            Ok(ExitView::Reset)
        } else {
            Err("system event "@ + decimal(event as int))
        },
        KvmExit::FailEntry(reason, cpu) => Err(
            "hardware entry failure "@ + hex(reason as int) + " on host CPU "@ + decimal(
                cpu as int,
            ),
        ),
        KvmExit::InternalError => Err("KVM internal error"@),
        KvmExit::Unsupported(reason) => Err(
            "unsupported KVM exit reason "@ + decimal(reason as int),
        ),
        KvmExit::Other(shown) => Err("unexpected KVM exit "@ + shown@),
    }
}

/// What the VMM is told of one KVM outcome on vCPU `id`.
pub open spec fn decoded(arch: HostArch, id: u32, outcome: KvmOutcome<'_>) -> Result<
    ExitView,
    ErrorView,
> {
    match outcome {
        Err(errno) => if means_interrupted(errno) || means_retry(errno) {
            Ok(ExitView::Interrupted)
        } else {
            Err(ErrorView::RunVcpu { id, source: HostErrorView::Os { errno } })
        },
        Ok(exit) => match exit_meaning(arch, exit) {
            Ok(view) => Ok(view),
            Err(reason) => Err(ErrorView::UnhandledExit { id, reason }),
        },
    }
}

/// Refuses a port access that cannot be dispatched on `arch`.
fn check_port_access(arch: HostArch, port: u16, len: usize) -> (result: Result<(), String>)
    ensures
        match result {
            Ok(_) => port_refusal(arch, port, len as int) is None,
            Err(reason) => port_refusal(arch, port, len as int) == Some(reason@),
        },
{
    match arch {
        HostArch::X86_64 => match access_width(len) {
            Ok(()) => Ok(()),
            Err(width) => {
                let mut reason = width;
                reason.append(" on port ");
                append_hex(&mut reason, port as u64);
                Err(reason)
            },
        },
        HostArch::Arm64 => {
            let mut reason = "port I/O on port ".to_owned();
            append_hex(&mut reason, port as u64);
            reason.append(" on a non-x86 host");
            Err(reason)
        },
    }
}

/// Translates one KVM outcome into the VMM's exit contract on an `arch` host.
///
/// The buffer of a read is handed on as it is: what the VMM writes to it, KVM
/// gets. The buffer of a refused access is left alone.
pub fn decode_exit_on<'a>(arch: HostArch, id: u32, outcome: KvmOutcome<'a>) -> (result: Result<
    VcpuExit<'a>,
    Error,
>)
    ensures
        run_outcome(result) == decoded(arch, id, outcome),
        outcome matches Ok(KvmExit::MmioRead(_, given)) ==> (result matches Ok(
            VcpuExit::MmioRead { bytes, .. },
        ) && final(bytes)@ == final(given)@),
        outcome matches Ok(KvmExit::IoIn(_, given)) ==> match result {
            Ok(VcpuExit::IoIn { bytes, .. }) => final(bytes)@ == final(given)@,
            _ => final(given)@ == given@,
        },
        match outcome {
            Err(errno) => if errno == 4 || errno == 11 {
                result matches Ok(VcpuExit::Interrupted)
            } else {
                result matches Err(Error::RunVcpu { id: named, source: HostError::Os { errno: kept } })
                    && named == id && kept == errno
            },
            Ok(KvmExit::MmioRead(address, given)) => result matches Ok(
                VcpuExit::MmioRead { guest_addr, bytes },
            ) && guest_addr == address && bytes@ == given@ && final(bytes)@ == final(given)@,
            Ok(KvmExit::MmioWrite(address, given)) => result matches Ok(
                VcpuExit::MmioWrite { guest_addr, bytes },
            ) && guest_addr == address && bytes@ == given@,
            Ok(KvmExit::IoIn(number, given)) => if arch == HostArch::X86_64 && (given@.len() == 1
                || given@.len() == 2 || given@.len() == 4) {
                result matches Ok(VcpuExit::IoIn { port, bytes }) && port == number && bytes@ == given@
                    && final(bytes)@ == final(given)@
            } else {
                result matches Err(Error::UnhandledExit { id: named, reason }) && named == id && reason@
                    == (if arch == HostArch::X86_64 {
                    "string port I/O of "@ + decimal(given@.len() as int) + " bytes"@ + " on port "@ + hex(
                        number as int,
                    )
                } else {
                    "port I/O on port "@ + hex(number as int) + " on a non-x86 host"@
                }) && final(given)@ == given@
            },
            Ok(KvmExit::IoOut(number, given)) => if arch == HostArch::X86_64 && (given@.len() == 1
                || given@.len() == 2 || given@.len() == 4) {
                result matches Ok(VcpuExit::IoOut { port, bytes }) && port == number && bytes@ == given@
            } else {
                result matches Err(Error::UnhandledExit { id: named, reason }) && named == id && reason@
                    == (if arch == HostArch::X86_64 {
                    "string port I/O of "@ + decimal(given@.len() as int) + " bytes"@ + " on port "@ + hex(
                        number as int,
                    )
                } else {
                    "port I/O on port "@ + hex(number as int) + " on a non-x86 host"@
                })
            },
            Ok(KvmExit::Intr) => result matches Ok(VcpuExit::Interrupted),
            Ok(KvmExit::Hlt) => result matches Ok(VcpuExit::Halted),
            Ok(KvmExit::Shutdown) => result matches Ok(VcpuExit::Reset),
            Ok(KvmExit::SystemEvent(event, _)) => if event == 1 {
                result matches Ok(VcpuExit::Shutdown)
            } else if event == 2 {
                result matches Ok(VcpuExit::Reset)
            } else {
                result matches Err(Error::UnhandledExit { id: named, reason }) && named == id && reason@
                    == "system event "@ + decimal(event as int)
            },
            Ok(KvmExit::FailEntry(code, cpu)) => result matches Err(
                Error::UnhandledExit { id: named, reason },
            ) && named == id && reason@ == "hardware entry failure "@ + hex(code as int)
                + " on host CPU "@ + decimal(cpu as int),
            Ok(KvmExit::InternalError) => result matches Err(
                Error::UnhandledExit { id: named, reason },
            ) && named == id && reason@ == "KVM internal error"@,
            Ok(KvmExit::Unsupported(code)) => result matches Err(
                Error::UnhandledExit { id: named, reason },
            ) && named == id && reason@ == "unsupported KVM exit reason "@ + decimal(code as int),
            Ok(KvmExit::Other(text)) => result matches Err(
                Error::UnhandledExit { id: named, reason },
            ) && named == id && reason@ == "unexpected KVM exit "@ + text@,
        },
{
    let exit = match outcome {
        Ok(exit) => exit,
        Err(errno) => {
            // EAGAIN asks for a plain re-entry. Reporting it as an interruption
            // sends the VMM through its control-request check and back into the
            // guest, which is the same retry without a hidden loop here.
            if errno == eintr() || errno == eagain() {
                return Ok(VcpuExit::Interrupted);
            }
            return Err(Error::RunVcpu { id, source: HostError::from_raw_os_error(errno) });
        },
    };
    let reason: String = match exit {
        KvmExit::MmioRead(guest_addr, bytes) => {
            return Ok(VcpuExit::MmioRead { guest_addr, bytes });
        },
        KvmExit::MmioWrite(guest_addr, bytes) => {
            return Ok(VcpuExit::MmioWrite { guest_addr, bytes });
        },
        KvmExit::IoIn(port, bytes) => match check_port_access(arch, port, bytes.len()) {
            Ok(()) => {
                return Ok(VcpuExit::IoIn { port, bytes });
            },
            Err(reason) => reason,
        },
        KvmExit::IoOut(port, bytes) => match check_port_access(arch, port, bytes.len()) {
            Ok(()) => {
                return Ok(VcpuExit::IoOut { port, bytes });
            },
            Err(reason) => reason,
        },
        KvmExit::Intr => {
            return Ok(VcpuExit::Interrupted);
        },
        KvmExit::Hlt => {
            return Ok(VcpuExit::Halted);
        },
        // On x86 a triple fault surfaces as KVM_EXIT_SHUTDOWN, and the guest
        // has reset itself; other hosts report a reset as a system event.
        KvmExit::Shutdown => {
            return Ok(VcpuExit::Reset);
        },
        KvmExit::SystemEvent(event, _) => {
            if event == system_event_shutdown() {
                return Ok(VcpuExit::Shutdown);
            }
            if event == system_event_reset() {
                return Ok(VcpuExit::Reset);
            }
            let mut reason = "system event ".to_owned();
            append_decimal(&mut reason, event as u64);
            reason
        },
        KvmExit::FailEntry(code, cpu) => {
            let mut reason = "hardware entry failure ".to_owned();
            append_hex(&mut reason, code);
            reason.append(" on host CPU ");
            append_decimal(&mut reason, cpu as u64);
            reason
        },
        // kvm-ioctls does not surface the suberror that names the fault.
        KvmExit::InternalError => "KVM internal error".to_owned(),
        KvmExit::Unsupported(code) => {
            let mut reason = "unsupported KVM exit reason ".to_owned();
            append_decimal(&mut reason, code as u64);
            reason
        },
        KvmExit::Other(shown) => {
            let mut reason = "unexpected KVM exit ".to_owned();
            reason.append(shown.as_str());
            reason
        },
    };
    Err(Error::UnhandledExit { id, reason })
}

/// Translates one KVM outcome into the VMM's exit contract on an x86_64 host.
pub fn decode_exit<'a>(id: u32, outcome: KvmOutcome<'a>) -> (result: Result<VcpuExit<'a>, Error>)
    ensures
        run_outcome(result) == decoded(HostArch::X86_64, id, outcome),
        outcome matches Ok(KvmExit::MmioRead(_, given)) ==> (result matches Ok(
            VcpuExit::MmioRead { bytes, .. },
        ) && final(bytes)@ == final(given)@),
        outcome matches Ok(KvmExit::IoIn(_, given)) ==> match result {
            Ok(VcpuExit::IoIn { bytes, .. }) => final(bytes)@ == final(given)@,
            _ => final(given)@ == given@,
        },
        match outcome {
            Err(errno) => if errno == 4 || errno == 11 {
                result matches Ok(VcpuExit::Interrupted)
            } else {
                result matches Err(Error::RunVcpu { id: named, source: HostError::Os { errno: kept } })
                    && named == id && kept == errno
            },
            Ok(KvmExit::MmioRead(address, given)) => result matches Ok(
                VcpuExit::MmioRead { guest_addr, bytes },
            ) && guest_addr == address && bytes@ == given@ && final(bytes)@ == final(given)@,
            Ok(KvmExit::MmioWrite(address, given)) => result matches Ok(
                VcpuExit::MmioWrite { guest_addr, bytes },
            ) && guest_addr == address && bytes@ == given@,
            Ok(KvmExit::IoIn(number, given)) => if given@.len() == 1 || given@.len() == 2
                || given@.len() == 4 {
                result matches Ok(VcpuExit::IoIn { port, bytes }) && port == number && bytes@ == given@
                    && final(bytes)@ == final(given)@
            } else {
                result matches Err(Error::UnhandledExit { id: named, reason }) && named == id && reason@
                    == "string port I/O of "@ + decimal(given@.len() as int) + " bytes"@ + " on port "@
                    + hex(number as int) && final(given)@ == given@
            },
            Ok(KvmExit::IoOut(number, given)) => if given@.len() == 1 || given@.len() == 2
                || given@.len() == 4 {
                result matches Ok(VcpuExit::IoOut { port, bytes }) && port == number && bytes@ == given@
            } else {
                result matches Err(Error::UnhandledExit { id: named, reason }) && named == id && reason@
                    == "string port I/O of "@ + decimal(given@.len() as int) + " bytes"@ + " on port "@
                    + hex(number as int)
            },
            Ok(KvmExit::Intr) => result matches Ok(VcpuExit::Interrupted),
            Ok(KvmExit::Hlt) => result matches Ok(VcpuExit::Halted),
            Ok(KvmExit::Shutdown) => result matches Ok(VcpuExit::Reset),
            Ok(KvmExit::SystemEvent(event, _)) => if event == 1 {
                result matches Ok(VcpuExit::Shutdown)
            } else if event == 2 {
                result matches Ok(VcpuExit::Reset)
            } else {
                result matches Err(Error::UnhandledExit { id: named, reason }) && named == id && reason@
                    == "system event "@ + decimal(event as int)
            },
            Ok(KvmExit::FailEntry(code, cpu)) => result matches Err(
                Error::UnhandledExit { id: named, reason },
            ) && named == id && reason@ == "hardware entry failure "@ + hex(code as int)
                + " on host CPU "@ + decimal(cpu as int),
            Ok(KvmExit::InternalError) => result matches Err(
                Error::UnhandledExit { id: named, reason },
            ) && named == id && reason@ == "KVM internal error"@,
            Ok(KvmExit::Unsupported(code)) => result matches Err(
                Error::UnhandledExit { id: named, reason },
            ) && named == id && reason@ == "unsupported KVM exit reason "@ + decimal(code as int),
            Ok(KvmExit::Other(text)) => result matches Err(
                Error::UnhandledExit { id: named, reason },
            ) && named == id && reason@ == "unexpected KVM exit "@ + text@,
        },
{
    decode_exit_on(HostArch::X86_64, id, outcome)
}

/// How kvm-ioctls prints an exit that it knows by the given values.
pub uninterp spec fn printed(exit: KvmExitView) -> Seq<char>;

/// How an exit is named in a diagnostic: as kvm-ioctls prints it.
pub open spec fn shown(exit: KvmExitView) -> Seq<char> {
    match exit {
        KvmExitView::Other(text) => text,
        _ => printed(exit),
    }
}

/// Asks the `Debug` of `kvm_ioctls::VcpuExit` to print an exit.
///
/// Trusted: the text depends on the exit's variant and values alone, with a
/// buffer taken by the bytes it holds. What the text is, is left unsaid. An exit
/// that is only known as text has no value to print, and is left out.
#[verifier::external_body]
fn print_exit(exit: KvmExit<'_>) -> (text: String)
    requires
        !(exit is Other),
    ensures
        text@ == printed(exit@),
{
    let host = match exit {
        KvmExit::IoOut(port, bytes) => HostIoOut(port, bytes),
        KvmExit::IoIn(port, bytes) => HostIoIn(port, bytes),
        KvmExit::MmioRead(guest_addr, bytes) => HostMmioRead(guest_addr, bytes),
        KvmExit::MmioWrite(guest_addr, bytes) => HostMmioWrite(guest_addr, bytes),
        KvmExit::Hlt => HostHlt,
        KvmExit::Shutdown => HostShutdown,
        KvmExit::FailEntry(reason, cpu) => HostFailEntry(reason, cpu),
        KvmExit::Intr => HostIntr,
        KvmExit::InternalError => HostInternalError,
        KvmExit::SystemEvent(event, data) => HostSystemEvent(event, data),
        KvmExit::Unsupported(reason) => HostUnsupported(reason),
        KvmExit::Other(text) => return text,
    };
    format!("{host:?}")
}

/// Names an exit for a diagnostic. The buffer of a read is left alone: a copy of
/// it is printed.
fn show_exit(exit: KvmExit<'_>) -> (text: String)
    ensures
        text@ == shown(exit@),
        exit matches KvmExit::MmioRead(_, given) ==> final(given)@ == given@,
        exit matches KvmExit::IoIn(_, given) ==> final(given)@ == given@,
{
    match exit {
        KvmExit::Other(text) => text,
        KvmExit::MmioRead(guest_addr, bytes) => {
            let mut copy = slice_to_vec(bytes);
            print_exit(KvmExit::MmioRead(guest_addr, copy.as_mut_slice()))
        },
        KvmExit::IoIn(port, bytes) => {
            let mut copy = slice_to_vec(bytes);
            print_exit(KvmExit::IoIn(port, copy.as_mut_slice()))
        },
        other => print_exit(other),
    }
}

/// The failure of a completion entry that ran the guest, where `text` names the
/// exit it ended in.
pub open spec fn ran_the_guest(id: u32, text: Seq<char>) -> ErrorView {
    ErrorView::CompletePendingIo {
        id,
        source: HostErrorView::Custom {
            kind: ErrorKind::Other,
            message: "the guest ran and exited with "@ + text,
        },
    }
}

/// What the VMM is told of a completion entry on vCPU `id`.
pub open spec fn completed(id: u32, outcome: KvmOutcome<'_>) -> Result<(), ErrorView> {
    if interrupted(outcome) {
        Ok(())
    } else {
        match outcome {
            Ok(exit) => Err(ran_the_guest(id, shown(exit@))),
            Err(errno) => Err(
                ErrorView::CompletePendingIo { id, source: HostErrorView::Os { errno } },
            ),
        }
    }
}

/// Reports a completion entry that ran the guest, where `text` names the exit it
/// ended in.
pub fn guest_ran(id: u32, text: &str) -> (error: Error)
    ensures
        error@ == ran_the_guest(id, text@),
        error matches Error::CompletePendingIo {
            id: named,
            source: HostError::Custom { kind, message },
        } && named == id && kind == ErrorKind::Other && message@
            == "the guest ran and exited with "@ + text@,
{
    let mut message = "the guest ran and exited with ".to_owned();
    message.append(text);
    Error::CompletePendingIo { id, source: HostError::new(ErrorKind::Other, message) }
}

/// Checks that a completion entry finished without running the guest.
///
/// The buffer of a read that the guest ran into is left alone.
pub fn completion_result(id: u32, outcome: KvmOutcome<'_>) -> (result: Result<(), Error>)
    ensures
        crate::error::outcome(result) == completed(id, outcome),
        outcome matches Ok(KvmExit::MmioRead(_, given)) ==> final(given)@ == given@,
        outcome matches Ok(KvmExit::IoIn(_, given)) ==> final(given)@ == given@,
        match outcome {
            Ok(KvmExit::Intr) => result is Ok,
            Err(errno) => if errno == 4 {
                result is Ok
            } else {
                result matches Err(
                    Error::CompletePendingIo { id: named, source: HostError::Os { errno: kept } },
                ) && named == id && kept == errno
            },
            Ok(exit) => result matches Err(
                Error::CompletePendingIo { id: named, source: HostError::Custom { kind, message } },
            ) && named == id && kind == ErrorKind::Other && message@
                == "the guest ran and exited with "@ + match exit {
                KvmExit::IoOut(port, bytes) => printed(KvmExitView::IoOut(port, bytes@)),
                KvmExit::IoIn(port, bytes) => printed(KvmExitView::IoIn(port, bytes@)),
                KvmExit::MmioRead(address, bytes) => printed(KvmExitView::MmioRead(address, bytes@)),
                KvmExit::MmioWrite(address, bytes) => printed(KvmExitView::MmioWrite(address, bytes@)),
                KvmExit::Hlt => printed(KvmExitView::Hlt),
                KvmExit::Shutdown => printed(KvmExitView::Shutdown),
                KvmExit::FailEntry(reason, cpu) => printed(KvmExitView::FailEntry(reason, cpu)),
                KvmExit::Intr => printed(KvmExitView::Intr),
                KvmExit::InternalError => printed(KvmExitView::InternalError),
                KvmExit::SystemEvent(event, data) => printed(KvmExitView::SystemEvent(event, data@)),
                KvmExit::Unsupported(reason) => printed(KvmExitView::Unsupported(reason)),
                KvmExit::Other(text) => text@,
            },
        },
{
    match outcome {
        Ok(KvmExit::Intr) => Ok(()),
        // KVM tests `immediate_exit` before it enters the guest, so any other
        // exit means a guest instruction ran and the caller's state is stale.
        Ok(exit) => {
            let text = show_exit(exit);
            Err(guest_ran(id, text.as_str()))
        },
        Err(errno) => {
            if errno == eintr() {
                Ok(())
            } else {
                Err(
                    Error::CompletePendingIo { id, source: HostError::from_raw_os_error(errno) },
                )
            }
        },
    }
}

/// A kick is acknowledged only by a run that reports an interruption, and every
/// other interruption that is reported is a bare retry: were a retry to
/// acknowledge a kick, a pending kick would be lost.
pub proof fn only_a_retry_is_reported_without_an_acknowledgement(
    arch: HostArch,
    id: u32,
    outcome: KvmOutcome<'_>,
)
    ensures
        interrupted(outcome) ==> decoded(arch, id, outcome) == Ok::<_, ErrorView>(
            ExitView::Interrupted,
        ),
        decoded(arch, id, outcome) == Ok::<_, ErrorView>(ExitView::Interrupted) && !interrupted(
            outcome,
        ) <==> (outcome matches Err(errno) && means_retry(errno)),
{
}

/// A completion is accepted exactly when the entry ran no guest instruction,
/// which is when it ended in an interruption.
pub proof fn a_completion_runs_no_instruction(id: u32, outcome: KvmOutcome<'_>)
    ensures
        completed(id, outcome) is Ok <==> interrupted(outcome),
{
}

/// A failed entry keeps the host's errno and names the vCPU, whether it failed
/// in a run or in a completion.
pub proof fn a_failed_entry_keeps_the_host_errno(arch: HostArch, id: u32, errno: i32)
    requires
        !means_interrupted(errno),
    ensures
        !means_retry(errno) ==> (decoded(arch, id, Err(errno)) matches Err(
            ErrorView::RunVcpu { id: named, source },
        ) && named == id && source.raw_os_error() == Some(errno)),
        completed(id, Err(errno)) matches Err(
            ErrorView::CompletePendingIo { id: named, source },
        ) && named == id && source.raw_os_error() == Some(errno),
{
}

/// An exit that cannot be dispatched is reported with a reason under the vCPU
/// it happened on, and an exit never turns into a failure to run.
pub proof fn an_unhandled_exit_names_its_vcpu(arch: HostArch, id: u32, exit: KvmExit<'_>)
    ensures
        decoded(arch, id, Ok(exit)) matches Err(error) ==> (error matches ErrorView::UnhandledExit {
            id: named,
            reason,
        } && named == id && exit_meaning(arch, exit) == Err::<ExitView, _>(reason)),
{
}

/// Only port accesses depend on the host's architecture: every other outcome
/// means the same on all of them, and a port access is dispatched only on
/// x86_64 and only at a width that one instruction can produce.
pub proof fn only_port_accesses_depend_on_the_host(
    arch: HostArch,
    other: HostArch,
    id: u32,
    outcome: KvmOutcome<'_>,
)
    ensures
        match outcome {
            Ok(KvmExit::IoIn(_, bytes)) => decoded(arch, id, outcome) is Ok <==> arch
                == HostArch::X86_64 && single_access(bytes@.len() as int),
            Ok(KvmExit::IoOut(_, bytes)) => decoded(arch, id, outcome) is Ok <==> arch
                == HostArch::X86_64 && single_access(bytes@.len() as int),
            _ => decoded(arch, id, outcome) == decoded(other, id, outcome),
        },
{
}

/// An MMIO access reaches the device it addresses: its exit is of the same kind,
/// at the address KVM reported and with the bytes KVM reported, on every host.
pub proof fn an_mmio_access_keeps_its_address(
    arch: HostArch,
    id: u32,
    outcome: KvmOutcome<'_>,
    result: Result<VcpuExit<'_>, Error>,
)
    requires
        run_outcome(result) == decoded(arch, id, outcome),
    ensures
        outcome matches Ok(KvmExit::MmioRead(address, given)) ==> (result matches Ok(
            VcpuExit::MmioRead { guest_addr, bytes },
        ) && guest_addr == address && bytes@ == given@),
        outcome matches Ok(KvmExit::MmioWrite(address, given)) ==> (result matches Ok(
            VcpuExit::MmioWrite { guest_addr, bytes },
        ) && guest_addr == address && bytes@ == given@),
        result matches Ok(VcpuExit::MmioRead { guest_addr, .. }) ==> (outcome matches Ok(
            KvmExit::MmioRead(address, _),
        ) && address == guest_addr),
        result matches Ok(VcpuExit::MmioWrite { guest_addr, .. }) ==> (outcome matches Ok(
            KvmExit::MmioWrite(address, _),
        ) && address == guest_addr),
{
}

/// A port access of one instruction reaches the port it names with the bytes it
/// carries, in the direction it has. No other exit is reported as a port access.
pub proof fn a_port_access_keeps_its_port(
    arch: HostArch,
    id: u32,
    outcome: KvmOutcome<'_>,
    result: Result<VcpuExit<'_>, Error>,
)
    requires
        run_outcome(result) == decoded(arch, id, outcome),
    ensures
        outcome matches Ok(KvmExit::IoIn(number, given)) ==> match result {
            Ok(exit) => exit matches VcpuExit::IoIn { port, bytes } && port == number && bytes@
                == given@,
            Err(error) => error is UnhandledExit,
        },
        outcome matches Ok(KvmExit::IoOut(number, given)) ==> match result {
            Ok(exit) => exit matches VcpuExit::IoOut { port, bytes } && port == number && bytes@
                == given@,
            Err(error) => error is UnhandledExit,
        },
        result matches Ok(VcpuExit::IoIn { port, bytes }) ==> arch == HostArch::X86_64 && set![
            1nat,
            2,
            4,
        ].contains(bytes@.len()) && (outcome matches Ok(KvmExit::IoIn(number, _)) && number
            == port),
        result matches Ok(VcpuExit::IoOut { port, bytes }) ==> arch == HostArch::X86_64 && set![
            1nat,
            2,
            4,
        ].contains(bytes@.len()) && (outcome matches Ok(KvmExit::IoOut(number, _)) && number
            == port),
        arch == HostArch::X86_64 ==> (outcome matches Ok(KvmExit::IoIn(_, given)) && set![
            1nat,
            2,
            4,
        ].contains(given@.len()) ==> result is Ok),
        arch == HostArch::X86_64 ==> (outcome matches Ok(KvmExit::IoOut(_, given)) && set![
            1nat,
            2,
            4,
        ].contains(given@.len()) ==> result is Ok),
{
}

/// The guest's own state is reported as it is: halted exactly when it halted,
/// reset exactly on a triple fault or a reset event, shut down exactly on a
/// shutdown event, interrupted exactly on an interruption or a retry.
pub proof fn the_guest_s_state_is_reported_as_it_is(
    arch: HostArch,
    id: u32,
    outcome: KvmOutcome<'_>,
    result: Result<VcpuExit<'_>, Error>,
)
    requires
        run_outcome(result) == decoded(arch, id, outcome),
    ensures
        (result matches Ok(VcpuExit::Halted)) <==> (outcome matches Ok(KvmExit::Hlt)),
        (result matches Ok(VcpuExit::Reset)) <==> {
            ||| outcome matches Ok(KvmExit::Shutdown)
            ||| outcome matches Ok(KvmExit::SystemEvent(event, _)) && event == 2
        },
        (result matches Ok(VcpuExit::Shutdown)) <==> (outcome matches Ok(
            KvmExit::SystemEvent(event, _),
        ) && event == 1),
        (result matches Ok(VcpuExit::Interrupted)) <==> {
            ||| outcome matches Ok(KvmExit::Intr)
            ||| outcome matches Err(errno) && (errno == 4 || errno == 11)
        },
        (result matches Err(Error::RunVcpu { .. })) <==> (outcome matches Err(errno) && errno != 4
            && errno != 11),
{
}

/// An exit is printed with the values it carries: its own numbers, and the bytes
/// its buffer holds.
pub proof fn an_exit_is_printed_with_its_values(exit: KvmExit<'_>)
    ensures
        shown(exit@) == match exit {
            KvmExit::IoOut(port, bytes) => printed(KvmExitView::IoOut(port, bytes@)),
            KvmExit::IoIn(port, bytes) => printed(KvmExitView::IoIn(port, bytes@)),
            KvmExit::MmioRead(address, bytes) => printed(KvmExitView::MmioRead(address, bytes@)),
            KvmExit::MmioWrite(address, bytes) => printed(KvmExitView::MmioWrite(address, bytes@)),
            KvmExit::Hlt => printed(KvmExitView::Hlt),
            KvmExit::Shutdown => printed(KvmExitView::Shutdown),
            KvmExit::FailEntry(reason, cpu) => printed(KvmExitView::FailEntry(reason, cpu)),
            KvmExit::Intr => printed(KvmExitView::Intr),
            KvmExit::InternalError => printed(KvmExitView::InternalError),
            KvmExit::SystemEvent(event, data) => printed(KvmExitView::SystemEvent(event, data@)),
            KvmExit::Unsupported(reason) => printed(KvmExitView::Unsupported(reason)),
            KvmExit::Other(text) => text@,
        },
{
}

/// The reason of an exit that cannot be dispatched names what KVM reported: the
/// port and width of an access in hexadecimal and decimal, the event, the
/// hardware's reason and the host CPU, or the exit itself.
pub proof fn a_reason_names_what_kvm_reported(arch: HostArch, id: u32, exit: KvmExit<'_>)
    ensures
        decoded(arch, id, Ok(exit)) matches Err(error) ==> (error matches ErrorView::UnhandledExit {
            id: named,
            reason,
        } && named == id && match exit {
            KvmExit::IoIn(port, bytes) => if arch == HostArch::X86_64 {
                reason == "string port I/O of "@ + decimal(bytes@.len() as int) + " bytes"@
                    + " on port "@ + hex(port as int)
            } else {
                reason == "port I/O on port "@ + hex(port as int) + " on a non-x86 host"@
            },
            KvmExit::IoOut(port, bytes) => if arch == HostArch::X86_64 {
                reason == "string port I/O of "@ + decimal(bytes@.len() as int) + " bytes"@
                    + " on port "@ + hex(port as int)
            } else {
                reason == "port I/O on port "@ + hex(port as int) + " on a non-x86 host"@
            },
            KvmExit::SystemEvent(event, _) => reason == "system event "@ + decimal(event as int),
            KvmExit::FailEntry(code, cpu) => reason == "hardware entry failure "@ + hex(code as int)
                + " on host CPU "@ + decimal(cpu as int),
            KvmExit::InternalError => reason == "KVM internal error"@,
            KvmExit::Unsupported(code) => reason == "unsupported KVM exit reason "@ + decimal(
                code as int,
            ),
            KvmExit::Other(text) => reason == "unexpected KVM exit "@ + text@,
            _ => false,
        }),
{
}

/// A completion entry that ran the guest is reported under its vCPU with a
/// diagnostic that ends in the exit as it is printed, and carries no errno.
pub proof fn a_completion_that_ran_the_guest_names_the_exit(id: u32, exit: KvmExit<'_>)
    requires
        !(exit is Intr),
    ensures
        completed(id, Ok(exit)) matches Err(
            ErrorView::CompletePendingIo { id: named, source },
        ) && named == id && source.kind() == ErrorKind::Other && source.message() == Some(
            "the guest ran and exited with "@ + shown(exit@),
        ) && source.host_errno() is None,
{
}

} // verus!
