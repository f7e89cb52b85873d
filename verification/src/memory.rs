//! KVM memory-slot allocation.
//!
//! KVM identifies each guest memory mapping by a small integer slot, and a
//! [`MemoryRegion`] has no such field: the backend picks the slot.
//!
//! The ioctl itself is passed in as a closure, so every decision here, which
//! slot a region gets, what happens when one is missing, and what stays as it
//! was when the ioctl fails, is stated and proved without a KVM device.

use std::collections::HashMap;

use vstd::prelude::*;

use crate::error::{outcome, Error, ErrorView};
use crate::host::{host_outcome, ErrorKind, HostError, HostErrorView};
use crate::text::{append_decimal, append_hex, decimal, hex};

verus! {

/// Host memory mapped into the guest.
#[derive(Debug, Clone, Copy, PartialEq, Eq)]
pub struct MemoryRegion {
    /// Where the region starts in guest physical memory.
    pub guest_addr: u64,
    /// Where the memory that backs it starts in this process.
    pub host_addr: u64,
    /// How many bytes it covers.
    pub size: usize,
}

/// A mapping KVM currently holds.
#[derive(Debug, Clone, Copy, PartialEq, Eq)]
pub struct Mapped {
    pub slot: u32,
    pub size: usize,
    pub host_addr: u64,
}

/// A memory region as KVM takes it: the fields of
/// `kvm_bindings::kvm_userspace_memory_region`.
#[derive(Debug, Clone, Copy, PartialEq, Eq)]
pub struct KvmUserspaceMemoryRegion {
    pub slot: u32,
    pub flags: u32,
    pub guest_phys_addr: u64,
    pub memory_size: u64,
    pub userspace_addr: u64,
}

/// Slot numbers for a VM's guest memory mappings.
///
/// Slots are reused after an unmap: hot-plugged memory will map and unmap over
/// a VM's lifetime, so a counter that only ever grows would exhaust the host's
/// slots.
#[derive(Debug)]
pub struct SlotAllocator {
    /// What the host allows, from `KVM_CAP_NR_MEMSLOTS`.
    max: u32,
    /// Lowest slot never handed out.
    next: u32,
    /// Slots returned by an unmap, reused before `next` grows.
    free: Vec<u32>,
    /// Live mappings, keyed by the guest address that identifies them.
    mapped: HashMap<u64, Mapped>,
}

/// The state of a [`SlotAllocator`].
#[verifier::ext_equal]
pub struct Slots {
    pub max: u32,
    pub next: u32,
    pub free: Seq<u32>,
    pub mapped: Map<u64, Mapped>,
}

impl Slots {
    /// No mapping, and every slot below `max` never handed out.
    pub open spec fn empty(max: u32) -> Slots {
        Slots { max, next: 0, free: Seq::empty(), mapped: Map::empty() }
    }

    /// `slot` belongs to a live mapping.
    pub open spec fn live(self, slot: u32) -> bool {
        exists|addr: u64| #[trigger] self.mapped.contains_key(addr) && self.mapped[addr].slot == slot
    }

    /// Every slot handed out so far is below the host's limit and either free,
    /// once, or held by exactly one live mapping.
    pub open spec fn consistent(self) -> bool {
        &&& self.next <= self.max
        &&& self.free.no_duplicates()
        &&& forall|i: int|
            0 <= i < self.free.len() ==> #[trigger] self.free[i] < self.next && !self.live(
                self.free[i],
            )
        &&& forall|addr: u64| #[trigger]
            self.mapped.contains_key(addr) ==> self.mapped[addr].slot < self.next
        &&& forall|a: u64, b: u64|
            self.mapped.contains_key(a) && self.mapped.contains_key(b) && a != b
                ==> (#[trigger] self.mapped[a]).slot != (#[trigger] self.mapped[b]).slot
        &&& self.mapped.dom().finite()
        &&& self.free.len() + self.mapped.dom().len() == self.next
    }

    /// The slot the next mapping gets: the one released last, or the lowest
    /// never handed out.
    pub open spec fn next_slot(self) -> u32 {
        if self.free.len() > 0 {
            self.free.last()
        } else {
            self.next
        }
    }

    /// Whether a new mapping still fits under the host's limit.
    pub open spec fn has_room(self) -> bool {
        self.free.len() > 0 || self.next < self.max
    }

    /// The state once `region` has been given the next slot.
    pub open spec fn reserved(self, region: MemoryRegion) -> Slots {
        let mapping = Mapped {
            slot: self.next_slot(),
            size: region.size,
            host_addr: region.host_addr,
        };
        Slots {
            max: self.max,
            next: if self.free.len() > 0 {
                self.next
            } else {
                (self.next + 1) as u32
            },
            free: if self.free.len() > 0 {
                self.free.drop_last()
            } else {
                self.free
            },
            mapped: self.mapped.insert(region.guest_addr, mapping),
        }
    }

    /// Why `region` gets no slot, or which one it gets.
    pub open spec fn reservation(self, region: MemoryRegion) -> Result<u32, HostErrorView> {
        if self.mapped.contains_key(region.guest_addr) {
            Err(
                HostErrorView::Custom {
                    kind: ErrorKind::AlreadyExists,
                    message: already_mapped(region.guest_addr),
                },
            )
        } else if self.has_room() {
            Ok(self.next_slot())
        } else {
            Err(
                HostErrorView::Custom {
                    kind: ErrorKind::QuotaExceeded,
                    message: slots_exhausted(self.max),
                },
            )
        }
    }

    /// The state once the mapping at `guest_addr`, if there is one, has given
    /// its slot back.
    pub open spec fn released(self, guest_addr: u64) -> Slots {
        if self.mapped.contains_key(guest_addr) {
            Slots {
                max: self.max,
                next: self.next,
                free: self.free.push(self.mapped[guest_addr].slot),
                mapped: self.mapped.remove(guest_addr),
            }
        } else {
            self
        }
    }

    /// `region` describes the mapping recorded at its guest address.
    pub open spec fn holds(self, region: MemoryRegion) -> bool {
        &&& self.mapped.contains_key(region.guest_addr)
        &&& self.mapped[region.guest_addr].size == region.size
        &&& self.mapped[region.guest_addr].host_addr == region.host_addr
    }

    /// The slot holding `region`, or why none does.
    pub open spec fn found(self, region: MemoryRegion) -> Result<u32, HostErrorView> {
        if !self.mapped.contains_key(region.guest_addr) {
            Err(
                HostErrorView::Custom {
                    kind: ErrorKind::NotFound,
                    message: not_mapped(region.guest_addr),
                },
            )
        } else if !self.holds(region) {
            Err(
                HostErrorView::Custom {
                    kind: ErrorKind::InvalidInput,
                    message: other_memory(
                        region.guest_addr,
                        self.mapped[region.guest_addr].size,
                    ),
                },
            )
        } else {
            Ok(self.mapped[region.guest_addr].slot)
        }
    }
}

/// Diagnostic of a guest address that is taken.
pub open spec fn already_mapped(guest_addr: u64) -> Seq<char> {
    "guest address "@ + hex(guest_addr as int) + " is already mapped"@
}

/// Diagnostic of a VM that has used up the host's slots.
pub open spec fn slots_exhausted(max: u32) -> Seq<char> {
    "the host allows only "@ + decimal(max as int) + " memory slots per VM"@
}

/// Diagnostic of a guest address where nothing is mapped.
pub open spec fn not_mapped(guest_addr: u64) -> Seq<char> {
    "no mapping at guest address "@ + hex(guest_addr as int)
}

/// Diagnostic of a region that is not the one recorded at its guest address.
pub open spec fn other_memory(guest_addr: u64, size: usize) -> Seq<char> {
    "the mapping at guest address "@ + hex(guest_addr as int) + " covers "@ + decimal(size as int)
        + " bytes of other host memory"@
}

impl View for SlotAllocator {
    type V = Slots;

    closed spec fn view(&self) -> Slots {
        Slots { max: self.max, next: self.next, free: self.free@, mapped: self.mapped@ }
    }
}

impl SlotAllocator {
    pub open spec fn wf(&self) -> bool {
        self@.consistent()
    }

    /// An allocator for a VM that may hold `max` mappings at once.
    pub fn new(max: u32) -> (slots: Self)
        ensures
            slots.wf(),
            slots@ == Slots::empty(max),
    {
        let slots = SlotAllocator { max, next: 0, free: Vec::new(), mapped: HashMap::new() };
        assert(slots@ =~= Slots::empty(max));
        slots
    }

    /// The slot `region` would get, or why it gets none. Claims nothing.
    fn available(&self, region: &MemoryRegion) -> (slot: Result<u32, HostError>)
        ensures
            host_outcome(slot) == self@.reservation(*region),
    {
        if self.mapped.contains_key(&region.guest_addr) {
            let mut message = "guest address ".to_owned();
            append_hex(&mut message, region.guest_addr);
            message.append(" is already mapped");
            return Err(HostError::new(ErrorKind::AlreadyExists, message));
        }
        if self.free.len() > 0 {
            Ok(self.free[self.free.len() - 1])
        } else if self.next < self.max {
            Ok(self.next)
        } else {
            let mut message = "the host allows only ".to_owned();
            append_decimal(&mut message, self.max as u64);
            message.append(" memory slots per VM");
            Err(HostError::new(ErrorKind::QuotaExceeded, message))
        }
    }

    /// Records `region` under the slot it was found to get.
    fn record(&mut self, region: &MemoryRegion)
        requires
            old(self).wf(),
            old(self)@.reservation(*region) is Ok,
        ensures
            final(self).wf(),
            final(self)@ == old(self)@.reserved(*region),
    {
        let slot: u32 = match self.free.pop() {
            Some(slot) => slot,
            None => {
                let slot: u32 = self.next;
                self.next = self.next + 1;
                slot
            },
        };
        self.mapped.insert(
            region.guest_addr,
            Mapped { slot, size: region.size, host_addr: region.host_addr },
        );
    }

    /// Claims a slot for `region` and records it as mapped there.
    pub fn reserve(&mut self, region: &MemoryRegion) -> (slot: Result<u32, HostError>)
        requires
            old(self).wf(),
        ensures
            final(self).wf(),
            host_outcome(slot) == old(self)@.reservation(*region),
            final(self)@ == (if slot is Ok {
                old(self)@.reserved(*region)
            } else {
                old(self)@
            }),
    {
        let slot = self.available(region);
        if slot.is_ok() {
            self.record(region);
        }
        slot
    }

    /// Gives a claimed slot back, and forgets what was mapped there.
    pub fn release(&mut self, guest_addr: u64)
        requires
            old(self).wf(),
        ensures
            final(self).wf(),
            final(self)@ == old(self)@.released(guest_addr),
    {
        if let Some(mapping) = self.mapped.remove(&guest_addr) {
            self.free.push(mapping.slot);
        }
    }

    /// Finds the slot holding `region`, rejecting a region that was never mapped
    /// or that does not describe the mapping recorded at its guest address.
    pub fn lookup(&self, region: &MemoryRegion) -> (slot: Result<u32, HostError>)
        ensures
            host_outcome(slot) == self@.found(*region),
    {
        match self.mapped.get(&region.guest_addr) {
            None => {
                let mut message = "no mapping at guest address ".to_owned();
                append_hex(&mut message, region.guest_addr);
                Err(HostError::new(ErrorKind::NotFound, message))
            },
            Some(mapping) => {
                if mapping.size != region.size || mapping.host_addr != region.host_addr {
                    let mut message = "the mapping at guest address ".to_owned();
                    append_hex(&mut message, region.guest_addr);
                    message.append(" covers ");
                    append_decimal(&mut message, mapping.size as u64);
                    message.append(" bytes of other host memory");
                    Err(HostError::new(ErrorKind::InvalidInput, message))
                } else {
                    Ok(mapping.slot)
                }
            },
        }
    }

    /// Forgets a mapping KVM has dropped, making its slot available again.
    pub fn forget(&mut self, guest_addr: u64)
        requires
            old(self).wf(),
        ensures
            final(self).wf(),
            final(self)@ == old(self)@.released(guest_addr),
    {
        self.release(guest_addr);
    }
}

/// What KVM is told to register `region` under `slot`.
pub open spec fn registration(slot: u32, region: MemoryRegion) -> KvmUserspaceMemoryRegion {
    KvmUserspaceMemoryRegion {
        slot,
        flags: 0,
        guest_phys_addr: region.guest_addr,
        memory_size: region.size as u64,
        userspace_addr: region.host_addr,
    }
}

/// What KVM is told to drop the mapping in `slot`.
pub open spec fn removal(slot: u32, guest_addr: u64) -> KvmUserspaceMemoryRegion {
    KvmUserspaceMemoryRegion {
        slot,
        flags: 0,
        guest_phys_addr: guest_addr,
        memory_size: 0,
        userspace_addr: 0,
    }
}

/// Describes `region` to KVM under `slot`.
pub fn kvm_region(slot: u32, region: &MemoryRegion) -> (mapping: KvmUserspaceMemoryRegion)
    ensures
        mapping == registration(slot, *region),
        mapping.slot == slot,
        mapping.flags == 0,
        mapping.guest_phys_addr == region.guest_addr,
        mapping.memory_size == region.size,
        mapping.userspace_addr == region.host_addr,
{
    KvmUserspaceMemoryRegion {
        slot,
        flags: 0,
        guest_phys_addr: region.guest_addr,
        memory_size: region.size as u64,
        userspace_addr: region.host_addr,
    }
}

/// Describes the removal of `slot`: KVM drops a mapping whose size is zero.
pub fn kvm_region_removal(slot: u32, guest_addr: u64) -> (mapping: KvmUserspaceMemoryRegion)
    ensures
        mapping == removal(slot, guest_addr),
        mapping.slot == slot,
        mapping.flags == 0,
        mapping.guest_phys_addr == guest_addr,
        mapping.memory_size == 0,
        mapping.userspace_addr == 0,
{
    KvmUserspaceMemoryRegion {
        slot,
        flags: 0,
        guest_phys_addr: guest_addr,
        memory_size: 0,
        userspace_addr: 0,
    }
}

/// Registers `region` with KVM through `set`.
///
/// `set` is asked for one thing only, the registration of `region` under the
/// slot it gets, and only when it gets one. Nothing is recorded before KVM has
/// accepted the region: a failed ioctl, or one that panics, leaves the slot to
/// be handed out again, so a caller that retries after fixing the region does
/// not leak it.
pub fn map_region<S: FnOnce(KvmUserspaceMemoryRegion) -> Result<(), HostError>>(
    slots: &mut SlotAllocator,
    region: &MemoryRegion,
    set: S,
) -> (result: Result<(), Error>)
    requires
        old(slots).wf(),
        old(slots)@.reservation(*region) matches Ok(slot) ==> call_requires(
            set,
            (registration(slot, *region),),
        ),
    ensures
        final(slots).wf(),
        match old(slots)@.reservation(*region) {
            Err(source) => {
                &&& outcome(result) == Err::<(), _>(map_failure(*region, source))
                &&& final(slots)@ == old(slots)@
            },
            Ok(slot) => exists|answer: Result<(), HostError>|
                {
                    &&& #[trigger] call_ensures(set, (registration(slot, *region),), answer)
                    &&& match answer {
                        Ok(_) => result is Ok && final(slots)@ == old(slots)@.reserved(*region),
                        Err(source) => {
                            &&& outcome(result) == Err::<(), _>(map_failure(*region, source@))
                            &&& final(slots)@ == old(slots)@
                        },
                    }
                },
        },
        old(slots)@.mapped.contains_key(region.guest_addr) ==> (result matches Err(
            Error::MapMemory { guest_addr, size, source: HostError::Custom { kind, message } },
        ) && guest_addr == region.guest_addr && size == region.size && kind
            == ErrorKind::AlreadyExists && message@ == "guest address "@ + hex(
            region.guest_addr as int,
        ) + " is already mapped"@ && final(slots)@ == old(slots)@),
        !old(slots)@.mapped.contains_key(region.guest_addr) && old(slots)@.mapped.dom().len() >= old(slots)@.max ==> (
        result matches Err(
            Error::MapMemory { guest_addr, size, source: HostError::Custom { kind, message } },
        ) && guest_addr == region.guest_addr && size == region.size && kind
            == ErrorKind::QuotaExceeded && message@ == "the host allows only "@ + decimal(
            old(slots)@.max as int,
        ) + " memory slots per VM"@ && final(slots)@ == old(slots)@),
        !old(slots)@.mapped.contains_key(region.guest_addr) && old(slots)@.mapped.dom().len() < old(slots)@.max
            ==> exists|request: KvmUserspaceMemoryRegion, answer: Result<(), HostError>|
            {
                &&& #[trigger] call_ensures(set, (request,), answer)
                &&& request.slot < old(slots)@.max
                &&& forall|addr: u64| #[trigger]
                    old(slots)@.mapped.contains_key(addr) ==> old(slots)@.mapped[addr].slot != request.slot
                &&& old(slots)@.free.len() > 0 ==> request.slot == old(slots)@.free.last()
                &&& old(slots)@.free.len() == 0 ==> request.slot == old(slots)@.next
                &&& request.flags == 0
                &&& request.guest_phys_addr == region.guest_addr
                &&& request.memory_size == region.size
                &&& request.userspace_addr == region.host_addr
                &&& match answer {
                    Ok(_) => {
                        &&& result is Ok
                        &&& final(slots)@.max == old(slots)@.max
                        &&& final(slots)@.mapped == old(slots)@.mapped.insert(
                            region.guest_addr,
                            (Mapped {
                                slot: request.slot,
                                size: region.size,
                                host_addr: region.host_addr,
                            }),
                        )
                        &&& final(slots)@.free.len() + final(slots)@.mapped.dom().len() == final(slots)@.next
                        &&& old(slots)@.free.len() > 0 ==> final(slots)@.free == old(slots)@.free.drop_last()
                        &&& old(slots)@.free.len() == 0 ==> final(slots)@.free.len() == 0
                    },
                    Err(source) => {
                        &&& result matches Err(Error::MapMemory { guest_addr, size, source: cause })
                            && guest_addr == region.guest_addr && size == region.size && cause == source
                        &&& final(slots)@ == old(slots)@
                    },
                }
            },
{
    let slot: u32 = match slots.available(region) {
        Ok(slot) => slot,
        Err(source) => {
            return Err(
                Error::MapMemory { guest_addr: region.guest_addr, size: region.size, source },
            );
        },
    };
    let request = kvm_region(slot, region);
    let answer = set(request);
    assert(call_ensures(set, (request,), answer));
    match answer {
        Ok(()) => {
            slots.record(region);
            Ok(())
        },
        Err(source) => Err(
            Error::MapMemory { guest_addr: region.guest_addr, size: region.size, source },
        ),
    }
}

/// Removes `region` from KVM through `set`.
///
/// `set` is asked for one thing only, the removal of the slot that holds
/// `region`, and only when one does. A failed ioctl keeps the record, because
/// the guest mapping may still be live and its host memory must stay backing it.
pub fn unmap_region<S: FnOnce(KvmUserspaceMemoryRegion) -> Result<(), HostError>>(
    slots: &mut SlotAllocator,
    region: &MemoryRegion,
    set: S,
) -> (result: Result<(), Error>)
    requires
        old(slots).wf(),
        old(slots)@.found(*region) matches Ok(slot) ==> call_requires(
            set,
            (removal(slot, region.guest_addr),),
        ),
    ensures
        final(slots).wf(),
        match old(slots)@.found(*region) {
            Err(source) => {
                &&& outcome(result) == Err::<(), _>(unmap_failure(*region, source))
                &&& final(slots)@ == old(slots)@
            },
            Ok(slot) => exists|answer: Result<(), HostError>|
                {
                    &&& #[trigger] call_ensures(set, (removal(slot, region.guest_addr),), answer)
                    &&& match answer {
                        Ok(_) => result is Ok && final(slots)@ == old(slots)@.released(
                            region.guest_addr,
                        ),
                        Err(source) => {
                            &&& outcome(result) == Err::<(), _>(unmap_failure(*region, source@))
                            &&& final(slots)@ == old(slots)@
                        },
                    }
                },
        },
        !old(slots)@.mapped.contains_key(region.guest_addr) ==> (result matches Err(
            Error::UnmapMemory { guest_addr, size, source: HostError::Custom { kind, message } },
        ) && guest_addr == region.guest_addr && size == region.size && kind
            == ErrorKind::NotFound && message@ == "no mapping at guest address "@ + hex(
            region.guest_addr as int,
        ) && final(slots)@ == old(slots)@),
        old(slots)@.mapped.contains_key(region.guest_addr) && (old(slots)@.mapped[region.guest_addr].size
            != region.size || old(slots)@.mapped[region.guest_addr].host_addr != region.host_addr) ==> (
        result matches Err(
            Error::UnmapMemory { guest_addr, size, source: HostError::Custom { kind, message } },
        ) && guest_addr == region.guest_addr && size == region.size && kind
            == ErrorKind::InvalidInput && message@ == "the mapping at guest address "@ + hex(
            region.guest_addr as int,
        ) + " covers "@ + decimal(old(slots)@.mapped[region.guest_addr].size as int)
            + " bytes of other host memory"@ && final(slots)@ == old(slots)@),
        old(slots)@.mapped.contains_key(region.guest_addr) && old(slots)@.mapped[region.guest_addr].size
            == region.size && old(slots)@.mapped[region.guest_addr].host_addr == region.host_addr
            ==> exists|request: KvmUserspaceMemoryRegion, answer: Result<(), HostError>|
            {
                &&& #[trigger] call_ensures(set, (request,), answer)
                &&& request.slot == old(slots)@.mapped[region.guest_addr].slot
                &&& request.flags == 0
                &&& request.guest_phys_addr == region.guest_addr
                &&& request.memory_size == 0
                &&& request.userspace_addr == 0
                &&& match answer {
                    Ok(_) => {
                        &&& result is Ok
                        &&& final(slots)@.max == old(slots)@.max
                        &&& final(slots)@.next == old(slots)@.next
                        &&& final(slots)@.free == old(slots)@.free.push(request.slot)
                        &&& final(slots)@.mapped == old(slots)@.mapped.remove(region.guest_addr)
                    },
                    Err(source) => {
                        &&& result matches Err(Error::UnmapMemory { guest_addr, size, source: cause })
                            && guest_addr == region.guest_addr && size == region.size && cause == source
                        &&& final(slots)@ == old(slots)@
                    },
                }
            },
{
    let slot: u32 = match slots.lookup(region) {
        Ok(slot) => slot,
        Err(source) => {
            return Err(
                Error::UnmapMemory { guest_addr: region.guest_addr, size: region.size, source },
            );
        },
    };
    let request = kvm_region_removal(slot, region.guest_addr);
    let answer = set(request);
    assert(call_ensures(set, (request,), answer));
    match answer {
        Ok(()) => {
            slots.forget(region.guest_addr);
            Ok(())
        },
        Err(source) => Err(
            Error::UnmapMemory { guest_addr: region.guest_addr, size: region.size, source },
        ),
    }
}

/// The failure to map `region`.
pub open spec fn map_failure(region: MemoryRegion, source: HostErrorView) -> ErrorView {
    ErrorView::MapMemory { guest_addr: region.guest_addr, size: region.size, source }
}

/// The failure to unmap `region`.
pub open spec fn unmap_failure(region: MemoryRegion, source: HostErrorView) -> ErrorView {
    ErrorView::UnmapMemory { guest_addr: region.guest_addr, size: region.size, source }
}

} // verus!
