//! A VM on the host's KVM: creating it, mapping its memory, creating its vCPUs
//! and driving its interrupt lines.
//!
//! Each host call is passed in as a closure. What a function asks of a closure
//! in `requires` is all that it will ever call it with.

use vstd::prelude::*;

use crate::error::{outcome, Error, ErrorView};
use crate::host::{
    classified, classify_host_failure, host_answer, host_outcome, reported_errno, ErrorKind,
    HostArch, HostError, HostErrorView,
};
use crate::irq::{encode_irq_line_on, encoded_line};
use crate::memory::{
    map_failure, map_region, registration, removal, unmap_failure, unmap_region,
    KvmUserspaceMemoryRegion, Mapped, MemoryRegion, SlotAllocator, Slots,
};
use crate::text::{decimal, hex};
use crate::vcpu::{armed, KvmVcpu};

verus! {

/// The KVM character device every Linux host exposes when KVM is available.
pub const KVM_DEVICE: &'static str = "/dev/kvm";

/// A VM on the host's KVM, as far as this crate keeps state of it.
#[derive(Debug)]
pub struct KvmVm {
    slots: SlotAllocator,
}

/// The host's limit on memory slots, as the allocator counts them.
pub open spec fn slot_limit(count: usize) -> u32 {
    if count <= u32::MAX {
        count as u32
    } else {
        u32::MAX
    }
}

/// The host's limit on memory slots, as the allocator counts them.
pub fn memory_slot_limit(count: usize) -> (max: u32)
    ensures
        max == slot_limit(count),
        count <= 0xffff_ffff ==> max == count,
        count > 0xffff_ffff ==> max == 0xffff_ffff,
{
    if count <= u32::MAX as usize {
        count as u32
    } else {
        u32::MAX
    }
}

/// The failure to open KVM or to create a VM on it.
pub open spec fn creation_failure(errno: i32) -> ErrorView {
    ErrorView::CreateVm(classified(HostErrorView::Os { errno }))
}

/// Reports the failure to open KVM or to create a VM on it.
fn create_vm_failure(errno: i32) -> (error: Error)
    ensures
        error@ == creation_failure(errno),
        if errno == 2 || errno == 6 || errno == 19 || errno == 25 {
            error == Error::CreateVm(HostError::Caused { kind: ErrorKind::Unsupported, errno })
        } else {
            error == Error::CreateVm(HostError::Os { errno })
        },
{
    Error::CreateVm(classify_host_failure(HostError::from_raw_os_error(errno)))
}

impl KvmVm {
    /// The state of the VM's memory slots.
    pub closed spec fn slots(&self) -> Slots {
        self.slots@
    }

    pub open spec fn wf(&self) -> bool {
        self.slots().consistent()
    }

    /// Creates an empty VM on the host's KVM. See [`KvmVm::open_at`].
    pub fn new<K, F, O, C, N>(open: O, create_vm: C, nr_memslots: N) -> (result: Result<
        (KvmVm, F),
        Error,
    >) where
        O: FnOnce(&str) -> Result<K, i32>,
        C: FnOnce(&K) -> Result<F, i32>,
        N: FnOnce(&K) -> usize,

        requires
            call_requires(open, (KVM_DEVICE,)),
            forall|kvm: K| #[trigger]
                call_ensures(open, (KVM_DEVICE,), Ok(kvm)) ==> call_requires(create_vm, (&kvm,)),
            forall|kvm: K, fd: F|
                #![trigger call_ensures(open, (KVM_DEVICE,), Ok(kvm)), call_ensures(create_vm, (&kvm,), Ok(fd))]
                call_ensures(open, (KVM_DEVICE,), Ok(kvm)) && call_ensures(
                    create_vm,
                    (&kvm,),
                    Ok(fd),
                ) ==> call_requires(nr_memslots, (&kvm,)),
        ensures
            opened(KVM_DEVICE, open, create_vm, nr_memslots, result),
            result matches Ok(vm) ==> exists|kvm: K, count: usize|
                {
                    &&& #[trigger] call_ensures(open, (KVM_DEVICE,), Ok(kvm))
                    &&& call_ensures(create_vm, (&kvm,), Ok(vm.1))
                    &&& #[trigger] call_ensures(nr_memslots, (&kvm,), count)
                    &&& vm.0.slots().max <= count
                    &&& vm.0.slots().max < count ==> vm.0.slots().max == 0xffff_ffff
                    &&& vm.0.slots().next == 0
                    &&& vm.0.slots().free.len() == 0
                    &&& forall|addr: u64| !#[trigger] vm.0.slots().mapped.contains_key(addr)
                },
            result matches Err(error) ==> {
                ||| error matches Error::CreateVm(HostError::Os { errno }) && errno != 2 && errno
                    != 6 && errno != 19 && errno != 25 && {
                    ||| call_ensures(open, (KVM_DEVICE,), Err(errno))
                    ||| exists|kvm: K| #[trigger]
                        call_ensures(open, (KVM_DEVICE,), Ok(kvm)) && call_ensures(
                            create_vm,
                            (&kvm,),
                            Err(errno),
                        )
                }
                ||| error matches Error::CreateVm(HostError::Caused { kind, errno }) && kind
                    == ErrorKind::Unsupported && (errno == 2 || errno == 6 || errno == 19 || errno
                    == 25) && {
                    ||| call_ensures(open, (KVM_DEVICE,), Err(errno))
                    ||| exists|kvm: K| #[trigger]
                        call_ensures(open, (KVM_DEVICE,), Ok(kvm)) && call_ensures(
                            create_vm,
                            (&kvm,),
                            Err(errno),
                        )
                }
            },
    {
        Self::open_at(KVM_DEVICE, open, create_vm, nr_memslots)
    }

    /// Creates an empty VM through the KVM device at `path`.
    ///
    /// `open` opens the device, `create_vm` creates a VM on it, and
    /// `nr_memslots` asks how many memory slots the host allows; the errno of a
    /// failure says whether the host can run VMs at all. Taking the path makes
    /// both failures reachable on a host that has no KVM.
    pub fn open_at<K, F, O, C, N>(path: &str, open: O, create_vm: C, nr_memslots: N) -> (result:
        Result<(KvmVm, F), Error>) where
        O: FnOnce(&str) -> Result<K, i32>,
        C: FnOnce(&K) -> Result<F, i32>,
        N: FnOnce(&K) -> usize,

        requires
            call_requires(open, (path,)),
            forall|kvm: K| #[trigger]
                call_ensures(open, (path,), Ok(kvm)) ==> call_requires(create_vm, (&kvm,)),
            forall|kvm: K, fd: F|
                #![trigger call_ensures(open, (path,), Ok(kvm)), call_ensures(create_vm, (&kvm,), Ok(fd))]
                call_ensures(open, (path,), Ok(kvm)) && call_ensures(create_vm, (&kvm,), Ok(fd))
                    ==> call_requires(nr_memslots, (&kvm,)),
        ensures
            opened(path, open, create_vm, nr_memslots, result),
            result matches Ok(vm) ==> exists|kvm: K, count: usize|
                {
                    &&& #[trigger] call_ensures(open, (path,), Ok(kvm))
                    &&& call_ensures(create_vm, (&kvm,), Ok(vm.1))
                    &&& #[trigger] call_ensures(nr_memslots, (&kvm,), count)
                    &&& vm.0.slots().max <= count
                    &&& vm.0.slots().max < count ==> vm.0.slots().max == 0xffff_ffff
                    &&& vm.0.slots().next == 0
                    &&& vm.0.slots().free.len() == 0
                    &&& forall|addr: u64| !#[trigger] vm.0.slots().mapped.contains_key(addr)
                },
            result matches Err(error) ==> {
                ||| error matches Error::CreateVm(HostError::Os { errno }) && errno != 2 && errno
                    != 6 && errno != 19 && errno != 25 && {
                    ||| call_ensures(open, (path,), Err(errno))
                    ||| exists|kvm: K| #[trigger]
                        call_ensures(open, (path,), Ok(kvm)) && call_ensures(
                            create_vm,
                            (&kvm,),
                            Err(errno),
                        )
                }
                ||| error matches Error::CreateVm(HostError::Caused { kind, errno }) && kind
                    == ErrorKind::Unsupported && (errno == 2 || errno == 6 || errno == 19 || errno
                    == 25) && {
                    ||| call_ensures(open, (path,), Err(errno))
                    ||| exists|kvm: K| #[trigger]
                        call_ensures(open, (path,), Ok(kvm)) && call_ensures(
                            create_vm,
                            (&kvm,),
                            Err(errno),
                        )
                }
            },
    {
        let kvm = match open(path) {
            Ok(kvm) => kvm,
            Err(errno) => {
                return Err(create_vm_failure(errno));
            },
        };
        let fd = match create_vm(&kvm) {
            Ok(fd) => fd,
            Err(errno) => {
                return Err(create_vm_failure(errno));
            },
        };
        let max: u32 = memory_slot_limit(nr_memslots(&kvm));
        Ok((KvmVm { slots: SlotAllocator::new(max) }, fd))
    }

    /// Maps `region` into the guest through the ioctl `set`.
    pub fn map_memory<S: FnOnce(KvmUserspaceMemoryRegion) -> Result<(), i32>>(
        &mut self,
        region: &MemoryRegion,
        set: S,
    ) -> (result: Result<(), Error>)
        requires
            old(self).wf(),
            old(self).slots().reservation(*region) matches Ok(slot) ==> call_requires(
                set,
                (registration(slot, *region),),
            ),
        ensures
            final(self).wf(),
            match old(self).slots().reservation(*region) {
                Err(source) => {
                    &&& outcome(result) == Err::<(), _>(map_failure(*region, source))
                    &&& final(self).slots() == old(self).slots()
                },
                Ok(slot) => exists|answer: Result<(), i32>|
                    {
                        &&& #[trigger] call_ensures(set, (registration(slot, *region),), answer)
                        &&& match answer {
                            Ok(_) => result is Ok && final(self).slots()
                                == old(self).slots().reserved(*region),
                            Err(errno) => {
                                &&& outcome(result) == Err::<(), _>(
                                    map_failure(*region, HostErrorView::Os { errno }),
                                )
                                &&& final(self).slots() == old(self).slots()
                            },
                        }
                    },
            },
            old(self).slots().mapped.contains_key(region.guest_addr) ==> (result matches Err(
                Error::MapMemory { guest_addr, size, source: HostError::Custom { kind, message } },
            ) && guest_addr == region.guest_addr && size == region.size && kind
                == ErrorKind::AlreadyExists && message@ == "guest address "@ + hex(
                region.guest_addr as int,
            ) + " is already mapped"@ && final(self).slots() == old(self).slots()),
            !old(self).slots().mapped.contains_key(region.guest_addr) && old(self).slots().mapped.dom().len() >= old(self).slots().max ==> (
            result matches Err(
                Error::MapMemory { guest_addr, size, source: HostError::Custom { kind, message } },
            ) && guest_addr == region.guest_addr && size == region.size && kind
                == ErrorKind::QuotaExceeded && message@ == "the host allows only "@ + decimal(
                old(self).slots().max as int,
            ) + " memory slots per VM"@ && final(self).slots() == old(self).slots()),
            !old(self).slots().mapped.contains_key(region.guest_addr) && old(self).slots().mapped.dom().len() < old(self).slots().max
                ==> exists|request: KvmUserspaceMemoryRegion, answer: Result<(), i32>|
                {
                    &&& #[trigger] call_ensures(set, (request,), answer)
                    &&& request.slot < old(self).slots().max
                    &&& forall|addr: u64| #[trigger]
                        old(self).slots().mapped.contains_key(addr) ==> old(self).slots().mapped[addr].slot != request.slot
                    &&& old(self).slots().free.len() > 0 ==> request.slot == old(self).slots().free.last()
                    &&& old(self).slots().free.len() == 0 ==> request.slot == old(self).slots().next
                    &&& request.flags == 0
                    &&& request.guest_phys_addr == region.guest_addr
                    &&& request.memory_size == region.size
                    &&& request.userspace_addr == region.host_addr
                    &&& match answer {
                        Ok(_) => {
                            &&& result is Ok
                            &&& final(self).slots().max == old(self).slots().max
                            &&& final(self).slots().mapped == old(self).slots().mapped.insert(
                                region.guest_addr,
                                (Mapped {
                                    slot: request.slot,
                                    size: region.size,
                                    host_addr: region.host_addr,
                                }),
                            )
                            &&& final(self).slots().free.len() + final(self).slots().mapped.dom().len() == final(self).slots().next
                            &&& old(self).slots().free.len() > 0 ==> final(self).slots().free == old(self).slots().free.drop_last()
                            &&& old(self).slots().free.len() == 0 ==> final(self).slots().free.len() == 0
                        },
                        Err(errno) => {
                            &&& result matches Err(Error::MapMemory { guest_addr, size, source: HostError::Os { errno: kept } })
                                && guest_addr == region.guest_addr && size == region.size && kept == errno
                            &&& final(self).slots() == old(self).slots()
                        },
                    }
                },
    {
        let ask = |mapping: KvmUserspaceMemoryRegion| -> (answer: Result<(), HostError>)
            requires
                call_requires(set, (mapping,)),
            ensures
                exists|raw: Result<(), i32>|
                    {
                        &&& #[trigger] call_ensures(set, (mapping,), raw)
                        &&& host_outcome(answer) == reported_errno(raw)
                        &&& match raw {
                            Ok(_) => answer is Ok,
                            Err(errno) => answer matches Err(HostError::Os { errno: kept }) && kept
                                == errno,
                        }
                    },
        {
            host_answer(set(mapping))
        };
        map_region(&mut self.slots, region, ask)
    }

    /// Removes `region` from the guest through the ioctl `set`.
    pub fn unmap_memory<S: FnOnce(KvmUserspaceMemoryRegion) -> Result<(), i32>>(
        &mut self,
        region: &MemoryRegion,
        set: S,
    ) -> (result: Result<(), Error>)
        requires
            old(self).wf(),
            old(self).slots().found(*region) matches Ok(slot) ==> call_requires(
                set,
                (removal(slot, region.guest_addr),),
            ),
        ensures
            final(self).wf(),
            match old(self).slots().found(*region) {
                Err(source) => {
                    &&& outcome(result) == Err::<(), _>(unmap_failure(*region, source))
                    &&& final(self).slots() == old(self).slots()
                },
                Ok(slot) => exists|answer: Result<(), i32>|
                    {
                        &&& #[trigger] call_ensures(
                            set,
                            (removal(slot, region.guest_addr),),
                            answer,
                        )
                        &&& match answer {
                            Ok(_) => result is Ok && final(self).slots()
                                == old(self).slots().released(region.guest_addr),
                            Err(errno) => {
                                &&& outcome(result) == Err::<(), _>(
                                    unmap_failure(*region, HostErrorView::Os { errno }),
                                )
                                &&& final(self).slots() == old(self).slots()
                            },
                        }
                    },
            },
            !old(self).slots().mapped.contains_key(region.guest_addr) ==> (result matches Err(
                Error::UnmapMemory { guest_addr, size, source: HostError::Custom { kind, message } },
            ) && guest_addr == region.guest_addr && size == region.size && kind
                == ErrorKind::NotFound && message@ == "no mapping at guest address "@ + hex(
                region.guest_addr as int,
            ) && final(self).slots() == old(self).slots()),
            old(self).slots().mapped.contains_key(region.guest_addr) && (old(self).slots().mapped[region.guest_addr].size
                != region.size || old(self).slots().mapped[region.guest_addr].host_addr != region.host_addr) ==> (
            result matches Err(
                Error::UnmapMemory { guest_addr, size, source: HostError::Custom { kind, message } },
            ) && guest_addr == region.guest_addr && size == region.size && kind
                == ErrorKind::InvalidInput && message@ == "the mapping at guest address "@ + hex(
                region.guest_addr as int,
            ) + " covers "@ + decimal(old(self).slots().mapped[region.guest_addr].size as int)
                + " bytes of other host memory"@ && final(self).slots() == old(self).slots()),
            old(self).slots().mapped.contains_key(region.guest_addr) && old(self).slots().mapped[region.guest_addr].size
                == region.size && old(self).slots().mapped[region.guest_addr].host_addr == region.host_addr
                ==> exists|request: KvmUserspaceMemoryRegion, answer: Result<(), i32>|
                {
                    &&& #[trigger] call_ensures(set, (request,), answer)
                    &&& request.slot == old(self).slots().mapped[region.guest_addr].slot
                    &&& request.flags == 0
                    &&& request.guest_phys_addr == region.guest_addr
                    &&& request.memory_size == 0
                    &&& request.userspace_addr == 0
                    &&& match answer {
                        Ok(_) => {
                            &&& result is Ok
                            &&& final(self).slots().max == old(self).slots().max
                            &&& final(self).slots().next == old(self).slots().next
                            &&& final(self).slots().free == old(self).slots().free.push(request.slot)
                            &&& final(self).slots().mapped == old(self).slots().mapped.remove(region.guest_addr)
                        },
                        Err(errno) => {
                            &&& result matches Err(Error::UnmapMemory { guest_addr, size, source: HostError::Os { errno: kept } })
                                && guest_addr == region.guest_addr && size == region.size && kept == errno
                            &&& final(self).slots() == old(self).slots()
                        },
                    }
                },
    {
        let ask = |mapping: KvmUserspaceMemoryRegion| -> (answer: Result<(), HostError>)
            requires
                call_requires(set, (mapping,)),
            ensures
                exists|raw: Result<(), i32>|
                    {
                        &&& #[trigger] call_ensures(set, (mapping,), raw)
                        &&& host_outcome(answer) == reported_errno(raw)
                        &&& match raw {
                            Ok(_) => answer is Ok,
                            Err(errno) => answer matches Err(HostError::Os { errno: kept }) && kept
                                == errno,
                        }
                    },
        {
            host_answer(set(mapping))
        };
        unmap_region(&mut self.slots, region, ask)
    }

    /// Creates vCPU `id` and arms the kicks that reach it.
    ///
    /// `create` creates the vCPU's handle, and `arm` arms kicks through it on
    /// the calling thread, which is the one the vCPU will run on.
    pub fn create_vcpu<F, V, C, A>(id: u32, create: C, arm: A) -> (result: Result<
        (KvmVcpu, V),
        Error,
    >) where C: FnOnce(u64) -> Result<F, i32>, A: FnOnce(F) -> Result<V, HostError>
        requires
            call_requires(create, (id as u64,)),
            forall|fd: F| #[trigger]
                call_ensures(create, (id as u64,), Ok(fd)) ==> call_requires(arm, (fd,)),
        ensures
            exists|created: Result<F, i32>|
                {
                    &&& #[trigger] call_ensures(create, (id as u64,), created)
                    &&& match created {
                        Err(errno) => result matches Err(error) && error@
                            == (ErrorView::CreateVcpu { id, source: HostErrorView::Os { errno } }),
                        Ok(fd) => armed(id, fd, arm, result),
                    }
                },
            match result {
                Ok(vcpu) => vcpu.0.id() == id && exists|fd: F| #[trigger]
                    call_ensures(create, (id as u64,), Ok(fd)) && call_ensures(
                        arm,
                        (fd,),
                        Ok(vcpu.1),
                    ),
                Err(error) => error matches Error::CreateVcpu { id: named, source } && named == id
                    && {
                    ||| source matches HostError::Os { errno } && call_ensures(
                        create,
                        (id as u64,),
                        Err(errno),
                    )
                    ||| exists|fd: F| #[trigger]
                        call_ensures(create, (id as u64,), Ok(fd)) && call_ensures(
                            arm,
                            (fd,),
                            Err(source),
                        )
                },
            },
    {
        match create(id as u64) {
            Ok(fd) => KvmVcpu::new(id, fd, arm),
            Err(errno) => Err(
                Error::CreateVcpu { id, source: HostError::from_raw_os_error(errno) },
            ),
        }
    }

    /// Sets the level of interrupt line `line` through the ioctl `set`, which
    /// gets the line encoded for an `arch` host.
    pub fn set_irq_line<S: FnOnce(u32, bool) -> Result<(), i32>>(
        arch: HostArch,
        line: u32,
        level: bool,
        set: S,
    ) -> (result: Result<(), Error>)
        requires
            encoded_line(arch, line) matches Ok(encoded) ==> call_requires(set, (encoded, level)),
        ensures
            match encoded_line(arch, line) {
                Err(source) => outcome(result) == Err::<(), _>(
                    ErrorView::SetIrqLine { line, source },
                ),
                Ok(encoded) => exists|answer: Result<(), i32>|
                    {
                        &&& #[trigger] call_ensures(set, (encoded, level), answer)
                        &&& match answer {
                            Ok(_) => result is Ok,
                            Err(errno) => outcome(result) == Err::<(), _>(
                                ErrorView::SetIrqLine { line, source: HostErrorView::Os { errno } },
                            ),
                        }
                    },
            },
            arch == HostArch::X86_64 || line <= 0xffff ==> exists|
                number: u32,
                answer: Result<(), i32>,
            |
                {
                    &&& #[trigger] call_ensures(set, (number, level), answer)
                    &&& arch == HostArch::X86_64 ==> number == line
                    &&& arch == HostArch::Arm64 ==> number == 0x0100_0000 + line
                    &&& match answer {
                        Ok(_) => result is Ok,
                        Err(errno) => result matches Err(
                            Error::SetIrqLine { line: named, source: HostError::Os { errno: kept } },
                        ) && named == line && kept == errno,
                    }
                },
            arch == HostArch::Arm64 && line > 0xffff ==> (result matches Err(
                Error::SetIrqLine { line: named, source: HostError::Custom { kind, message } },
            ) && named == line && kind == ErrorKind::InvalidInput && message@ == "interrupt "@
                + decimal(line as int) + " is beyond the largest GIC INTID KVM accepts"@),
    {
        let encoded: u32 = match encode_irq_line_on(arch, line) {
            Ok(encoded) => encoded,
            Err(source) => {
                return Err(Error::SetIrqLine { line, source });
            },
        };
        let answer = set(encoded, level);
        assert(call_ensures(set, (encoded, level), answer));
        match answer {
            Ok(()) => Ok(()),
            Err(errno) => Err(
                Error::SetIrqLine { line, source: HostError::from_raw_os_error(errno) },
            ),
        }
    }
}

/// What creating a VM through the device at `path` gives: an empty VM with as
/// many slots as the host allows and the VM's own handle, or the classified
/// failure of the step that failed.
pub open spec fn opened<K, F, O, C, N>(
    path: &str,
    open: O,
    create_vm: C,
    nr_memslots: N,
    result: Result<(KvmVm, F), Error>,
) -> bool where
    O: FnOnce(&str) -> Result<K, i32>,
    C: FnOnce(&K) -> Result<F, i32>,
    N: FnOnce(&K) -> usize,
 {
    exists|device: Result<K, i32>|
        {
            &&& #[trigger] call_ensures(open, (path,), device)
            &&& match device {
                Err(errno) => result matches Err(error) && error@ == creation_failure(errno),
                Ok(kvm) => exists|created: Result<F, i32>|
                    {
                        &&& #[trigger] call_ensures(create_vm, (&kvm,), created)
                        &&& match created {
                            Err(errno) => result matches Err(error) && error@ == creation_failure(
                                errno,
                            ),
                            Ok(fd) => exists|count: usize|
                                {
                                    &&& #[trigger] call_ensures(nr_memslots, (&kvm,), count)
                                    &&& result matches Ok(vm) && vm.1 == fd && vm.0.wf()
                                        && vm.0.slots() == Slots::empty(slot_limit(count))
                                },
                        }
                    },
            }
        }
}

/// The limit is the largest number that is neither above what the host reports
/// nor above what a slot number can count.
pub proof fn the_limit_is_what_the_host_reports(count: usize)
    ensures
        slot_limit(count) <= count,
        slot_limit(count) < count ==> slot_limit(count) == 0xffff_ffff,
        forall|max: u32| #[trigger]
            call_ensures(memory_slot_limit, (count,), max) ==> max <= count && (max == count || max
                == 0xffff_ffff),
{
}

/// A host that reports more than `0` slots lets a region be mapped at any guest
/// address of a fresh VM, in slot `0`.
pub proof fn a_fresh_vm_takes_a_region(count: usize, region: MemoryRegion)
    requires
        count > 0,
    ensures
        Slots::empty(slot_limit(count)).reservation(region) == Ok::<u32, HostErrorView>(0),
        Slots::empty(slot_limit(count)).found(region) is Err,
{
}

/// The device a VM is created on by default.
pub proof fn the_kvm_device_is_dev_kvm()
    ensures
        KVM_DEVICE@ == "/dev/kvm"@,
{
}

/// A failure to create a VM is the host's own, under its errno; only the errno
/// values of a host without KVM, or of a device that is not KVM, are marked as
/// unsupported, and keep the errno as the cause.
pub proof fn a_creation_failure_is_the_host_s(errno: i32)
    ensures
        creation_failure(errno) matches ErrorView::CreateVm(source) && source == if errno == 2
            || errno == 6 || errno == 19 || errno == 25 {
            HostErrorView::Caused { kind: ErrorKind::Unsupported, errno }
        } else {
            HostErrorView::Os { errno }
        },
{
}

/// A VM that was created has the handle that creating it on the opened device
/// gave, nothing mapped, and as its limit the number that this device reports,
/// up to what a slot number can count. Creating a VM fails only as opening the
/// device or creating the VM on it failed.
pub proof fn a_vm_has_the_limit_its_device_reports<K, F, O, C, N>(
    path: &str,
    open: O,
    create_vm: C,
    nr_memslots: N,
    result: Result<(KvmVm, F), Error>,
) where
    O: FnOnce(&str) -> Result<K, i32>,
    C: FnOnce(&K) -> Result<F, i32>,
    N: FnOnce(&K) -> usize,

    requires
        opened(path, open, create_vm, nr_memslots, result),
    ensures
        result matches Ok(vm) ==> exists|kvm: K, count: usize|
            {
                &&& #[trigger] call_ensures(open, (path,), Ok(kvm))
                &&& call_ensures(create_vm, (&kvm,), Ok(vm.1))
                &&& #[trigger] call_ensures(nr_memslots, (&kvm,), count)
                &&& vm.0.wf()
                &&& vm.0.slots().max <= count
                &&& vm.0.slots().max < count ==> vm.0.slots().max == 0xffff_ffff
                &&& forall|addr: u64| !#[trigger] vm.0.slots().mapped.contains_key(addr)
            },
        result matches Err(error) ==> (error matches Error::CreateVm(source) && (
        source@.host_errno() matches Some(errno) && {
            ||| call_ensures(open, (path,), Err(errno))
            ||| exists|kvm: K| #[trigger]
                call_ensures(open, (path,), Ok(kvm)) && call_ensures(create_vm, (&kvm,), Err(errno))
        })),
{
}

} // verus!
