//! What holds of memory slots over a VM's lifetime.

use vstd::prelude::*;

use crate::error::ErrorView;
use crate::host::{ErrorKind, HostErrorView};
use crate::memory::{
    kvm_region, kvm_region_removal, map_failure, registration, removal, slots_exhausted,
    unmap_failure, KvmUserspaceMemoryRegion, MemoryRegion, Slots,
};
use crate::text::{decimal, hex};

verus! {

/// Every operation on the allocator keeps it consistent and keeps the host's
/// limit.
pub proof fn operations_keep_slots_consistent(slots: Slots, region: MemoryRegion, guest_addr: u64)
    requires
        slots.consistent(),
    ensures
        Slots::empty(slots.max).consistent(),
        slots.reservation(region) is Ok ==> slots.reserved(region).consistent(),
        slots.released(guest_addr).consistent(),
        slots.reserved(region).max == slots.max,
        slots.released(guest_addr).max == slots.max,
{
}

/// The host's limit is exactly how many regions can be mapped at once,
/// whatever was mapped and unmapped before: a reservation at a free guest
/// address fails only while `max` regions are mapped, and then with a
/// diagnostic that names the limit.
pub proof fn the_limit_is_the_number_of_live_mappings(slots: Slots, region: MemoryRegion)
    requires
        slots.consistent(),
        !slots.mapped.contains_key(region.guest_addr),
    ensures
        slots.mapped.dom().len() <= slots.max,
        slots.reservation(region) is Ok <==> slots.mapped.dom().len() < slots.max,
        slots.mapped.dom().len() == slots.max ==> slots.reservation(region) == Err::<u32, _>(
            HostErrorView::Custom {
                kind: ErrorKind::QuotaExceeded,
                message: slots_exhausted(slots.max),
            },
        ),
{
}

/// A guest address holds one mapping at a time.
pub proof fn a_mapped_address_is_taken(slots: Slots, region: MemoryRegion, again: MemoryRegion)
    requires
        slots.consistent(),
        slots.reservation(region) is Ok,
        again.guest_addr == region.guest_addr,
    ensures
        slots.reserved(region).reservation(again) matches Err(error) && error.kind()
            == ErrorKind::AlreadyExists,
{
}

/// Two live mappings never share a slot, and every slot in use is one the host
/// allows.
pub proof fn live_mappings_have_their_own_slots(slots: Slots, a: u64, b: u64)
    requires
        slots.consistent(),
        slots.mapped.contains_key(a),
        slots.mapped.contains_key(b),
    ensures
        slots.mapped[a].slot < slots.max,
        slots.mapped[a].slot == slots.mapped[b].slot ==> a == b,
{
}

/// A slot that is handed out belongs to no live mapping.
pub proof fn a_slot_handed_out_was_not_in_use(slots: Slots, region: MemoryRegion)
    requires
        slots.consistent(),
    ensures
        slots.reservation(region) matches Ok(slot) ==> slot < slots.max && !slots.live(slot),
{
}

/// A set of slots below `bound` has at most `bound` members.
proof fn slots_below_a_bound(slots: Set<u32>, bound: u32)
    requires
        slots.finite(),
        forall|slot: u32| slots.contains(slot) ==> slot < bound,
    ensures
        slots.len() <= bound,
    decreases bound,
{
    if bound == 0 {
        assert(slots =~= Set::empty());
    } else {
        let last = (bound - 1) as u32;
        slots_below_a_bound(slots.remove(last), last);
    }
}

/// No slot is lost: each one ever handed out is either free, and will be used
/// again, or held by a live mapping.
pub proof fn no_slot_leaks(slots: Slots, slot: u32)
    requires
        slots.consistent(),
        slot < slots.next,
    ensures
        slots.free.contains(slot) != slots.live(slot),
{
    let free = slots.free.to_set();
    let slot_of = |addr: u64| slots.mapped[addr].slot;
    let live = slots.mapped.dom().map(slot_of);
    slots.free.unique_seq_to_set();
    slots.mapped.dom().lemma_map_finite(slot_of);
    vstd::set_lib::lemma_map_size(slots.mapped.dom(), live, slot_of);
    assert forall|s: u32| live.contains(s) implies slots.live(s) by {
        let addr = choose|addr: u64| slots.mapped.dom().contains(addr) && slot_of(addr) == s;
        assert(slots.mapped.contains_key(addr));
    }
    assert(free.disjoint(live));
    vstd::set_lib::lemma_set_disjoint_lens(free, live);
    let used = free.union(live);
    assert forall|s: u32| used.contains(s) implies s < slots.next by {
        if live.contains(s) {
            let addr = choose|addr: u64|
                slots.mapped.dom().contains(addr) && slot_of(addr) == s;
            assert(slots.mapped.contains_key(addr));
        }
    }
    if !slots.free.contains(slot) && !slots.live(slot) {
        assert(!used.contains(slot));
        slots_below_a_bound(used.insert(slot), slots.next);
    }
}

/// The state once each of `regions` in turn has been given a slot.
pub open spec fn reserve_all(slots: Slots, regions: Seq<MemoryRegion>) -> Slots
    decreases regions.len(),
{
    if regions.len() == 0 {
        slots
    } else {
        reserve_all(slots, regions.drop_last()).reserved(regions.last())
    }
}

/// No two of `regions` start at the same guest address.
pub open spec fn distinct_addresses(regions: Seq<MemoryRegion>) -> bool {
    forall|i: int, j: int|
        0 <= i < j < regions.len() ==> (#[trigger] regions[i]).guest_addr != (
        #[trigger] regions[j]).guest_addr
}

/// Slots start at zero and count up: on a fresh allocator the regions mapped
/// first to last get the slots `0`, `1`, `2` and so on, up to the host's limit.
pub proof fn fresh_slots_count_up(max: u32, regions: Seq<MemoryRegion>)
    requires
        regions.len() <= max,
        distinct_addresses(regions),
    ensures
        ({
            let slots = reserve_all(Slots::empty(max), regions);
            &&& slots.max == max
            &&& slots.next == regions.len()
            &&& slots.free.len() == 0
            &&& slots.consistent()
            &&& forall|addr: u64| #[trigger]
                slots.mapped.contains_key(addr) <==> exists|i: int|
                    0 <= i < regions.len() && #[trigger] regions[i].guest_addr == addr
            &&& forall|i: int|
                0 <= i < regions.len() ==> slots.mapped[(
                #[trigger] regions[i]).guest_addr].slot == i
        }),
    decreases regions.len(),
{
    if regions.len() > 0 {
        let earlier = regions.drop_last();
        let last = regions.last();
        assert forall|i: int, j: int| 0 <= i < j < earlier.len() implies (
        #[trigger] earlier[i]).guest_addr != (#[trigger] earlier[j]).guest_addr by {
            assert(regions[i].guest_addr != regions[j].guest_addr);
        }
        fresh_slots_count_up(max, earlier);
        let before = reserve_all(Slots::empty(max), earlier);
        let slots = before.reserved(last);
        assert forall|i: int| 0 <= i < earlier.len() implies (
        #[trigger] earlier[i]).guest_addr != last.guest_addr by {
            assert(regions[i].guest_addr != regions[regions.len() - 1].guest_addr);
        }
        assert(!before.mapped.contains_key(last.guest_addr));
        assert forall|addr: u64| #[trigger] slots.mapped.contains_key(addr) <==> exists|i: int|
            0 <= i < regions.len() && #[trigger] regions[i].guest_addr == addr by {
            if before.mapped.contains_key(addr) {
                let i = choose|i: int|
                    0 <= i < earlier.len() && #[trigger] earlier[i].guest_addr == addr;
                assert(regions[i].guest_addr == addr);
            }
            if addr == last.guest_addr {
                assert(regions[regions.len() - 1].guest_addr == addr);
            }
            if exists|i: int| 0 <= i < regions.len() && #[trigger] regions[i].guest_addr == addr {
                let i = choose|i: int|
                    0 <= i < regions.len() && #[trigger] regions[i].guest_addr == addr;
                if i < earlier.len() {
                    assert(earlier[i].guest_addr == addr);
                }
            }
        }
        assert forall|i: int| 0 <= i < regions.len() implies slots.mapped[(
        #[trigger] regions[i]).guest_addr].slot == i by {
            if i < earlier.len() {
                assert(earlier[i] == regions[i]);
            }
        }
    }
}

/// A released slot is reused before the counter grows: the next region mapped
/// gets the slot that an unmap has just given back.
pub proof fn a_released_slot_is_reused_first(
    slots: Slots,
    guest_addr: u64,
    region: MemoryRegion,
)
    requires
        slots.consistent(),
        slots.mapped.contains_key(guest_addr),
        !slots.released(guest_addr).mapped.contains_key(region.guest_addr),
    ensures
        slots.released(guest_addr).reservation(region) == Ok::<u32, HostErrorView>(
            slots.mapped[guest_addr].slot,
        ),
        slots.released(guest_addr).reserved(region).next == slots.next,
{
}

/// A slot that is reserved and given back leaves no trace: the same regions are
/// mapped, every later request is answered as if the reservation had never been
/// made, and the state it leads to is the same.
pub proof fn a_reservation_given_back_leaves_no_trace(
    slots: Slots,
    reserved: MemoryRegion,
    region: MemoryRegion,
)
    requires
        slots.consistent(),
        slots.reservation(reserved) is Ok,
    ensures
        ({
            let given_back = slots.reserved(reserved).released(reserved.guest_addr);
            &&& given_back.consistent()
            &&& given_back.mapped == slots.mapped
            &&& given_back.found(region) == slots.found(region)
            &&& given_back.reservation(region) == slots.reservation(region)
            &&& given_back.reserved(region) == slots.reserved(region)
        }),
{
    let given_back = slots.reserved(reserved).released(reserved.guest_addr);
    assert(given_back.mapped =~= slots.mapped);
    if slots.free.len() > 0 {
        assert(given_back.free =~= slots.free);
    } else {
        assert(given_back.free.drop_last() =~= slots.free);
    }
    assert(given_back.reserved(region) =~= slots.reserved(region));
}

/// A region is found exactly when it is the one recorded at its guest address.
pub proof fn only_the_recorded_region_is_found(slots: Slots, region: MemoryRegion)
    ensures
        slots.found(region) is Ok <==> slots.holds(region),
{
}

/// A region that was given a slot is found in that slot, and every other guest
/// address answers as before.
pub proof fn a_mapped_region_is_found_in_its_slot(
    slots: Slots,
    region: MemoryRegion,
    other: MemoryRegion,
)
    requires
        slots.reservation(region) is Ok,
        other.guest_addr != region.guest_addr,
    ensures
        slots.reserved(region).found(region) == slots.reservation(region),
        slots.reserved(region).found(other) == slots.found(other),
{
}

/// A region that was unmapped is gone, and every other guest address answers as
/// before.
pub proof fn an_unmapped_region_is_gone(slots: Slots, region: MemoryRegion, other: MemoryRegion)
    requires
        slots.found(region) is Ok,
        other.guest_addr != region.guest_addr,
    ensures
        slots.released(region.guest_addr).found(region) matches Err(error) && error.kind()
            == ErrorKind::NotFound,
        slots.released(region.guest_addr).found(other) == slots.found(other),
{
}

/// KVM is told of a region as it is: where the guest sees it, which host memory
/// backs it and how long it is, under the slot it was given and without flags.
pub proof fn kvm_is_told_of_the_region_itself(slot: u32, region: MemoryRegion)
    ensures
        registration(slot, region).slot == slot,
        registration(slot, region).flags == 0,
        registration(slot, region).guest_phys_addr == region.guest_addr,
        registration(slot, region).memory_size == region.size,
        registration(slot, region).userspace_addr == region.host_addr,
        forall|request: KvmUserspaceMemoryRegion| #[trigger]
            call_ensures(kvm_region, (slot, &region), request) ==> {
                &&& request.slot == slot
                &&& request.flags == 0
                &&& request.guest_phys_addr == region.guest_addr
                &&& request.memory_size == region.size
                &&& request.userspace_addr == region.host_addr
            },
{
}

/// Requests for different regions differ wherever the regions do: two regions
/// that KVM is told of alike are the same region in the same slot.
pub proof fn different_regions_are_told_apart(a: u32, one: MemoryRegion, b: u32, two: MemoryRegion)
    requires
        registration(a, one) == registration(b, two),
    ensures
        a == b,
        one == two,
{
}

/// KVM is told to drop the slot itself: a removal has no size and no memory, and
/// names the slot, whichever it is.
pub proof fn kvm_is_told_to_drop_the_slot_itself(slot: u32, guest_addr: u64)
    ensures
        removal(slot, guest_addr).slot == slot,
        removal(slot, guest_addr).flags == 0,
        removal(slot, guest_addr).guest_phys_addr == guest_addr,
        removal(slot, guest_addr).memory_size == 0,
        removal(slot, guest_addr).userspace_addr == 0,
        forall|request: KvmUserspaceMemoryRegion| #[trigger]
            call_ensures(kvm_region_removal, (slot, guest_addr), request) ==> {
                &&& request.slot == slot
                &&& request.flags == 0
                &&& request.guest_phys_addr == guest_addr
                &&& request.memory_size == 0
                &&& request.userspace_addr == 0
            },
{
}

/// A region is removed from the very slot it was registered in, even if other
/// regions were mapped and unmapped since, and no live region shares it.
pub proof fn a_region_is_removed_from_the_slot_it_was_registered_in(
    slots: Slots,
    region: MemoryRegion,
    other: MemoryRegion,
    guest_addr: u64,
)
    requires
        slots.consistent(),
        slots.reservation(region) is Ok,
        other.guest_addr != region.guest_addr,
        guest_addr != region.guest_addr,
    ensures
        ({
            let registered = registration(slots.reservation(region)->Ok_0, region);
            let mapped = slots.reserved(region);
            &&& mapped.found(region) matches Ok(slot) && removal(slot, region.guest_addr).slot
                == registered.slot
            &&& mapped.reserved(other).found(region) == mapped.found(region)
            &&& mapped.released(guest_addr).found(region) == mapped.found(region)
            &&& mapped.mapped.contains_key(guest_addr) ==> mapped.mapped[guest_addr].slot
                != registered.slot
        }),
{
    assert(slots.reserved(region).consistent());
    let mapped = slots.reserved(region);
    assert(mapped.mapped.contains_key(region.guest_addr));
    if mapped.mapped.contains_key(guest_addr) {
        assert(mapped.mapped[guest_addr].slot != mapped.mapped[region.guest_addr].slot);
    }
}

/// Which slot a region gets: none where its guest address is taken, then the one
/// given back last, then the lowest never used, as long as the host has one.
pub proof fn a_region_gets_the_slot_given_back_last(slots: Slots, region: MemoryRegion)
    ensures
        slots.mapped.contains_key(region.guest_addr) ==> slots.reservation(region) == Err::<u32, _>(
            HostErrorView::Custom {
                kind: ErrorKind::AlreadyExists,
                message: "guest address "@ + hex(region.guest_addr as int) + " is already mapped"@,
            },
        ),
        !slots.mapped.contains_key(region.guest_addr) ==> {
            &&& slots.free.len() > 0 ==> slots.reservation(region) == Ok::<u32, HostErrorView>(
                slots.free[slots.free.len() - 1],
            )
            &&& slots.free.len() == 0 && slots.next < slots.max ==> slots.reservation(region)
                == Ok::<u32, HostErrorView>(slots.next)
            &&& slots.free.len() == 0 && slots.next >= slots.max ==> slots.reservation(region)
                == Err::<u32, _>(
                HostErrorView::Custom {
                    kind: ErrorKind::QuotaExceeded,
                    message: "the host allows only "@ + decimal(slots.max as int)
                        + " memory slots per VM"@,
                },
            )
        },
{
}

/// A reservation records the region's own size and memory under the slot it
/// gave, takes that slot and no other, and leaves every other mapping alone.
pub proof fn a_reservation_records_the_region(slots: Slots, region: MemoryRegion, addr: u64)
    requires
        slots.consistent(),
        slots.reservation(region) is Ok,
    ensures
        ({
            let mapped = slots.reserved(region);
            let slot = slots.reservation(region)->Ok_0;
            &&& mapped.max == slots.max
            &&& mapped.mapped.contains_key(region.guest_addr)
            &&& mapped.mapped[region.guest_addr].slot == slot
            &&& mapped.mapped[region.guest_addr].size == region.size
            &&& mapped.mapped[region.guest_addr].host_addr == region.host_addr
            &&& addr != region.guest_addr ==> (mapped.mapped.contains_key(addr)
                <==> slots.mapped.contains_key(addr))
            &&& addr != region.guest_addr && slots.mapped.contains_key(addr)
                ==> mapped.mapped[addr] == slots.mapped[addr]
            &&& if slots.free.len() > 0 {
                mapped.next == slots.next && mapped.free.push(slot) == slots.free
            } else {
                mapped.next == slots.next + 1 && mapped.free.len() == 0
            }
        }),
{
    let mapped = slots.reserved(region);
    if slots.free.len() > 0 {
        assert(mapped.free.push(slots.free.last()) =~= slots.free);
    }
}

/// An unmap gives back the slot of its mapping and no other, and leaves every
/// other mapping alone; where nothing is mapped it changes nothing.
pub proof fn a_release_gives_back_the_slot(slots: Slots, guest_addr: u64, addr: u64)
    ensures
        !slots.mapped.contains_key(guest_addr) ==> slots.released(guest_addr) == slots,
        slots.mapped.contains_key(guest_addr) ==> {
            let released = slots.released(guest_addr);
            &&& released.max == slots.max
            &&& released.next == slots.next
            &&& released.free == slots.free.push(slots.mapped[guest_addr].slot)
            &&& !released.mapped.contains_key(guest_addr)
            &&& addr != guest_addr ==> (released.mapped.contains_key(addr)
                <==> slots.mapped.contains_key(addr))
            &&& addr != guest_addr && slots.mapped.contains_key(addr) ==> released.mapped[addr]
                == slots.mapped[addr]
        },
{
}

/// Which slot holds a region: the one recorded at its guest address, if that
/// records the region's own size and memory.
pub proof fn a_region_is_found_where_it_is_recorded(slots: Slots, region: MemoryRegion)
    ensures
        !slots.mapped.contains_key(region.guest_addr) ==> slots.found(region) == Err::<u32, _>(
            HostErrorView::Custom {
                kind: ErrorKind::NotFound,
                message: "no mapping at guest address "@ + hex(region.guest_addr as int),
            },
        ),
        slots.mapped.contains_key(region.guest_addr) ==> {
            let mapping = slots.mapped[region.guest_addr];
            slots.found(region) == if mapping.size == region.size && mapping.host_addr
                == region.host_addr {
                Ok::<u32, HostErrorView>(mapping.slot)
            } else {
                Err(
                    HostErrorView::Custom {
                        kind: ErrorKind::InvalidInput,
                        message: "the mapping at guest address "@ + hex(region.guest_addr as int)
                            + " covers "@ + decimal(mapping.size as int)
                            + " bytes of other host memory"@,
                    },
                )
            }
        },
{
}

/// A fresh allocator has the host's limit, nothing mapped and nothing given
/// back, and starts at slot `0`.
pub proof fn a_fresh_allocator_is_empty(max: u32, addr: u64)
    ensures
        Slots::empty(max).max == max,
        Slots::empty(max).next == 0,
        Slots::empty(max).free.len() == 0,
        !Slots::empty(max).mapped.contains_key(addr),
{
}

/// A failure to map or unmap names the region by its guest address and size,
/// and keeps the cause.
pub proof fn a_failure_names_its_region(region: MemoryRegion, source: HostErrorView)
    ensures
        map_failure(region, source) matches ErrorView::MapMemory {
            guest_addr,
            size,
            source: cause,
        } && guest_addr == region.guest_addr && size == region.size && cause == source,
        unmap_failure(region, source) matches ErrorView::UnmapMemory {
            guest_addr,
            size,
            source: cause,
        } && guest_addr == region.guest_addr && size == region.size && cause == source,
{
}

} // verus!
