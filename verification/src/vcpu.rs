//! Running a KVM vCPU, completing its pending access, and kicking it.
//!
//! Each host call is passed in as a closure. What a function asks of a closure
//! in `requires` is all that it will ever call it with.

use vstd::prelude::*;

use crate::error::{outcome, Error};
use crate::exit::{
    completed, completion_result, decode_exit_on, decoded, interrupted, is_interrupt, printed,
    run_outcome, KvmExit, KvmExitView, KvmOutcome, VcpuExit,
};
use crate::host::{ErrorKind, HostArch, HostError};
use crate::text::{decimal, hex};

verus! {

/// A KVM vCPU, as far as this crate keeps state of it: the number its exits and
/// failures are reported under.
#[derive(Debug)]
pub struct KvmVcpu {
    id: u32,
}

/// Forces one KVM vCPU out of the guest, from any thread.
#[derive(Debug, Clone, Copy)]
pub struct KvmVcpuHandle {
    id: u32,
}

/// What arming kicks through `fd` gives: the vCPU and what `arm` made of `fd`,
/// or the failure of `arm`.
pub open spec fn armed<F, V, A: FnOnce(F) -> Result<V, HostError>>(
    id: u32,
    fd: F,
    arm: A,
    result: Result<(KvmVcpu, V), Error>,
) -> bool {
    match result {
        Ok(vcpu) => vcpu.0.id() == id && call_ensures(arm, (fd,), Ok(vcpu.1)),
        Err(error) => error matches Error::CreateVcpu { id: named, source } && named == id
            && call_ensures(arm, (fd,), Err(source)),
    }
}

impl KvmVcpu {
    /// The number the vCPU was created with.
    pub closed spec fn id(&self) -> u32 {
        self.id
    }

    /// Wraps a freshly created vCPU, arming kicks on the calling thread.
    pub fn new<F, V, A: FnOnce(F) -> Result<V, HostError>>(id: u32, fd: F, arm: A) -> (result:
        Result<(KvmVcpu, V), Error>)
        requires
            call_requires(arm, (fd,)),
        ensures
            armed(id, fd, arm, result),
            match result {
                Ok(vcpu) => vcpu.0.id() == id && call_ensures(arm, (fd,), Ok(vcpu.1)),
                Err(error) => error matches Error::CreateVcpu { id: named, source } && named == id
                    && call_ensures(arm, (fd,), Err(source)),
            },
    {
        match arm(fd) {
            Ok(host) => Ok((KvmVcpu { id }, host)),
            Err(source) => Err(Error::CreateVcpu { id, source }),
        }
    }

    /// Runs the guest until it exits to the VMM.
    ///
    /// `enter` enters the guest, and `acknowledge` acknowledges a kick on the
    /// vCPU's `immediate_exit` byte, which is done only for an entry that was
    /// interrupted. The kick flag is never cleared before entry: a kick that
    /// arrived between two runs must still be reported by this one. The buffer
    /// of a read is KVM's own, so what the VMM writes to it, the guest gets.
    pub fn run<'a, E, K>(&self, arch: HostArch, enter: E, acknowledge: K) -> (result: Result<
        VcpuExit<'a>,
        Error,
    >) where E: FnOnce() -> KvmOutcome<'a>, K: FnOnce()
        requires
            call_requires(enter, ()),
            forall|reported: KvmOutcome<'a>| #[trigger]
                call_ensures(enter, (), reported) && interrupted(reported) ==> call_requires(
                    acknowledge,
                    (),
                ),
        ensures
            exists|reported: KvmOutcome<'a>|
                {
                    &&& #[trigger] call_ensures(enter, (), reported)
                    &&& interrupted(reported) ==> call_ensures(acknowledge, (), ())
                    &&& run_outcome(result) == decoded(arch, self.id(), reported)
                    &&& reported matches Ok(KvmExit::MmioRead(_, given)) ==> (result matches Ok(
                        VcpuExit::MmioRead { bytes, .. },
                    ) && final(bytes)@ == final(given)@)
                    &&& reported matches Ok(KvmExit::IoIn(_, given)) ==> match result {
                        Ok(VcpuExit::IoIn { bytes, .. }) => final(bytes)@ == final(given)@,
                        _ => final(given)@ == given@,
                    }
                    &&& (reported matches Ok(KvmExit::Intr) || reported == Err::<KvmExit<'a>, i32>(
                        4,
                    )) ==> call_ensures(acknowledge, (), ())
                    &&& match reported {
                        Err(errno) => if errno == 4 || errno == 11 {
                            result matches Ok(VcpuExit::Interrupted)
                        } else {
                            result matches Err(Error::RunVcpu { id: named, source: HostError::Os { errno: kept } })
                                && named == self.id() && kept == errno
                        },
                        Ok(KvmExit::MmioRead(address, given)) => result matches Ok(
                            VcpuExit::MmioRead { guest_addr, bytes },
                        ) && guest_addr == address && bytes@ == given@ && final(bytes)@ == final(given)@,
                        Ok(KvmExit::MmioWrite(address, given)) => result matches Ok(
                            VcpuExit::MmioWrite { guest_addr, bytes },
                        ) && guest_addr == address && bytes@ == given@,
                        Ok(KvmExit::IoIn(number, given)) => if arch == HostArch::X86_64 && (given@.len() == 1
                            || given@.len() == 2 || given@.len() == 4) {
                            result matches Ok(VcpuExit::IoIn { port, bytes }) && port == number && bytes@ == given@
                                && final(bytes)@ == final(given)@
                        } else {
                            result matches Err(Error::UnhandledExit { id: named, reason }) && named == self.id() && reason@
                                == (if arch == HostArch::X86_64 {
                                "string port I/O of "@ + decimal(given@.len() as int) + " bytes"@ + " on port "@ + hex(
                                    number as int,
                                )
                            } else {
                                "port I/O on port "@ + hex(number as int) + " on a non-x86 host"@
                            }) && final(given)@ == given@
                        },
                        Ok(KvmExit::IoOut(number, given)) => if arch == HostArch::X86_64 && (given@.len() == 1
                            || given@.len() == 2 || given@.len() == 4) {
                            result matches Ok(VcpuExit::IoOut { port, bytes }) && port == number && bytes@ == given@
                        } else {
                            result matches Err(Error::UnhandledExit { id: named, reason }) && named == self.id() && reason@
                                == (if arch == HostArch::X86_64 {
                                "string port I/O of "@ + decimal(given@.len() as int) + " bytes"@ + " on port "@ + hex(
                                    number as int,
                                )
                            } else {
                                "port I/O on port "@ + hex(number as int) + " on a non-x86 host"@
                            })
                        },
                        Ok(KvmExit::Intr) => result matches Ok(VcpuExit::Interrupted),
                        Ok(KvmExit::Hlt) => result matches Ok(VcpuExit::Halted),
                        Ok(KvmExit::Shutdown) => result matches Ok(VcpuExit::Reset),
                        Ok(KvmExit::SystemEvent(event, _)) => if event == 1 {
                            result matches Ok(VcpuExit::Shutdown)
                        } else if event == 2 {
                            result matches Ok(VcpuExit::Reset)
                        } else {
                            result matches Err(Error::UnhandledExit { id: named, reason }) && named == self.id() && reason@
                                == "system event "@ + decimal(event as int)
                        },
                        Ok(KvmExit::FailEntry(code, cpu)) => result matches Err(
                            Error::UnhandledExit { id: named, reason },
                        ) && named == self.id() && reason@ == "hardware entry failure "@ + hex(code as int)
                            + " on host CPU "@ + decimal(cpu as int),
                        Ok(KvmExit::InternalError) => result matches Err(
                            Error::UnhandledExit { id: named, reason },
                        ) && named == self.id() && reason@ == "KVM internal error"@,
                        Ok(KvmExit::Unsupported(code)) => result matches Err(
                            Error::UnhandledExit { id: named, reason },
                        ) && named == self.id() && reason@ == "unsupported KVM exit reason "@ + decimal(code as int),
                        Ok(KvmExit::Other(text)) => result matches Err(
                            Error::UnhandledExit { id: named, reason },
                        ) && named == self.id() && reason@ == "unexpected KVM exit "@ + text@,
                    }
                },
    {
        let reported = enter();
        if is_interrupt(&reported) {
            acknowledge();
        }
        decode_exit_on(arch, self.id, reported)
    }

    /// Completes a pending access without running the guest.
    ///
    /// `begin` asks KVM to leave the guest at once, `enter` enters it, and `end`
    /// withdraws the request, whatever the entry gave. KVM finishes a pending
    /// access before it tests `immediate_exit`, so this entry completes the
    /// access without running a guest instruction. With nothing pending it
    /// simply returns. The buffer of a read is left alone.
    pub fn complete_pending_io<'a, B, E, D>(&self, begin: B, enter: E, end: D) -> (result: Result<
        (),
        Error,
    >) where B: FnOnce(), E: FnOnce() -> KvmOutcome<'a>, D: FnOnce()
        requires
            call_requires(begin, ()),
            call_ensures(begin, (), ()) ==> call_requires(enter, ()),
            forall|reported: KvmOutcome<'a>|
                call_ensures(begin, (), ()) && #[trigger] call_ensures(enter, (), reported)
                    ==> call_requires(end, ()),
        ensures
            call_ensures(begin, (), ()),
            call_ensures(end, (), ()),
            exists|reported: KvmOutcome<'a>|
                {
                    &&& #[trigger] call_ensures(enter, (), reported)
                    &&& outcome(result) == completed(self.id(), reported)
                    &&& reported matches Ok(KvmExit::MmioRead(_, given)) ==> final(given)@
                        == given@
                    &&& reported matches Ok(KvmExit::IoIn(_, given)) ==> final(given)@ == given@
                    &&& match reported {
                        Ok(KvmExit::Intr) => result is Ok,
                        Err(errno) => if errno == 4 {
                            result is Ok
                        } else {
                            result matches Err(
                                Error::CompletePendingIo { id: named, source: HostError::Os { errno: kept } },
                            ) && named == self.id() && kept == errno
                        },
                        Ok(exit) => result matches Err(
                            Error::CompletePendingIo { id: named, source: HostError::Custom { kind, message } },
                        ) && named == self.id() && kind == ErrorKind::Other && message@
                            == "the guest ran and exited with "@ + match exit {
                            KvmExit::IoOut(port, bytes) => printed(KvmExitView::IoOut(port, bytes@)),
                            KvmExit::IoIn(port, bytes) => printed(KvmExitView::IoIn(port, bytes@)),
                            KvmExit::MmioRead(address, bytes) => printed(KvmExitView::MmioRead(address, bytes@)),
                            KvmExit::MmioWrite(address, bytes) => printed(KvmExitView::MmioWrite(address, bytes@)),
                            KvmExit::Hlt => printed(KvmExitView::Hlt),
                            KvmExit::Shutdown => printed(KvmExitView::Shutdown),
                            KvmExit::FailEntry(reason, cpu) => printed(KvmExitView::FailEntry(reason, cpu)),
                            KvmExit::Intr => printed(KvmExitView::Intr),
                            KvmExit::InternalError => printed(KvmExitView::InternalError),
                            KvmExit::SystemEvent(event, data) => printed(KvmExitView::SystemEvent(event, data@)),
                            KvmExit::Unsupported(reason) => printed(KvmExitView::Unsupported(reason)),
                            KvmExit::Other(text) => text@,
                        },
                    }
                },
    {
        begin();
        let reported = enter();
        end();
        completion_result(self.id, reported)
    }

    /// A handle that can kick this vCPU from any thread.
    pub fn handle(&self) -> (handle: KvmVcpuHandle)
        ensures
            handle.id() == self.id(),
    {
        KvmVcpuHandle { id: self.id }
    }
}

impl KvmVcpuHandle {
    /// The number of the vCPU it kicks.
    pub closed spec fn id(&self) -> u32 {
        self.id
    }

    /// Forces the vCPU out of the guest through `kick`.
    pub fn kick<K: FnOnce() -> Result<(), HostError>>(&self, kick: K) -> (result: Result<
        (),
        Error,
    >)
        requires
            call_requires(kick, ()),
        ensures
            match result {
                Ok(_) => call_ensures(kick, (), Ok(())),
                Err(error) => error matches Error::KickVcpu { id, source } && id == self.id()
                    && call_ensures(kick, (), Err(source)),
            },
    {
        let kicked = kick();
        match kicked {
            Ok(()) => {
                assert(kicked->Ok_0 == ());
                Ok(())
            },
            Err(source) => Err(Error::KickVcpu { id: self.id, source }),
        }
    }
}

/// A vCPU is created under the number it was asked for with what arming made of
/// its own handle, and fails only as arming that handle failed, under its number.
pub proof fn a_vcpu_keeps_its_number<F, V, A: FnOnce(F) -> Result<V, HostError>>(
    id: u32,
    fd: F,
    arm: A,
    result: Result<(KvmVcpu, V), Error>,
)
    requires
        armed(id, fd, arm, result),
    ensures
        result matches Ok(vcpu) ==> vcpu.0.id() == id && call_ensures(arm, (fd,), Ok(vcpu.1)),
        result matches Err(error) ==> (error matches Error::CreateVcpu { id: named, source }
            && named == id && call_ensures(arm, (fd,), Err(source))),
{
}

} // verus!
