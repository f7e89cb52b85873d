use boxlite_hypervisor::error::Error;
use boxlite_hypervisor::host::{ErrorKind, HostError};
use boxlite_hypervisor::memory::{
    kvm_region, kvm_region_removal, map_region, unmap_region, KvmUserspaceMemoryRegion,
    MemoryRegion, SlotAllocator,
};

const PAGE: usize = 4096;

/// A region pointing at an address that is never dereferenced: these tests
/// exercise bookkeeping, not mapping.
fn region(guest_addr: u64, host_addr: usize, size: usize) -> MemoryRegion {
    MemoryRegion {
        guest_addr,
        host_addr: host_addr as u64,
        size,
    }
}

fn allocator(max: u32) -> SlotAllocator {
    SlotAllocator::new(max)
}

fn accept(_: KvmUserspaceMemoryRegion) -> Result<(), HostError> {
    Ok(())
}

fn reject(kind: ErrorKind) -> impl FnOnce(KvmUserspaceMemoryRegion) -> Result<(), HostError> {
    move |_| Err(HostError::new(kind, "the host rejected the region".to_string()))
}

#[test]
fn slots_are_handed_out_in_order_and_reused_after_an_unmap() {
    let mut slots = allocator(8);
    let mut issued = Vec::new();
    for index in 0..3u64 {
        let region = region(index * PAGE as u64, 0x1000 + index as usize * PAGE, PAGE);
        map_region(&mut slots, &region, |kvm| {
            issued.push(kvm.slot);
            Ok(())
        })
        .expect("map a region");
    }
    assert_eq!(issued, vec![0, 1, 2], "slots start at zero and count up");

    let middle = region(PAGE as u64, 0x1000 + PAGE, PAGE);
    unmap_region(&mut slots, &middle, accept).expect("unmap the middle region");

    let fresh = region(0x9000, 0x9000, PAGE);
    let mut reused = None;
    map_region(&mut slots, &fresh, |kvm| {
        reused = Some(kvm.slot);
        Ok(())
    })
    .expect("map after an unmap");

    assert_eq!(
        reused,
        Some(1),
        "a released slot is reused before the counter grows"
    );
}

#[test]
fn slot_exhaustion_is_reported_before_the_ioctl() {
    let mut slots = allocator(1);
    map_region(&mut slots, &region(0, 0x1000, PAGE), accept).expect("map the only slot");

    let mut attempted = false;
    let error = map_region(&mut slots, &region(PAGE as u64, 0x2000, PAGE), |_| {
        attempted = true;
        Ok(())
    })
    .expect_err("a second mapping must not fit");

    assert!(!attempted, "an exhausted allocator must not reach KVM");
    let Error::MapMemory { source, .. } = error else {
        panic!("expected a map failure, got {error:?}");
    };
    assert_eq!(source.kind(), ErrorKind::QuotaExceeded);
    assert!(
        source.message().expect("a diagnostic").contains('1'),
        "the message names the host's limit: {source:?}"
    );
    assert_eq!(
        source.message(),
        Some("the host allows only 1 memory slots per VM")
    );
}

#[test]
fn mapping_the_same_guest_address_twice_is_rejected() {
    let mut slots = allocator(8);
    map_region(&mut slots, &region(0x8000, 0x1000, PAGE), accept).expect("map a region");

    let error = map_region(&mut slots, &region(0x8000, 0x2000, PAGE), accept)
        .expect_err("the guest address is taken");

    let Error::MapMemory { source, .. } = error else {
        panic!("expected a map failure, got {error:?}");
    };
    assert_eq!(source.kind(), ErrorKind::AlreadyExists);
    assert_eq!(
        source.message(),
        Some("guest address 0x8000 is already mapped")
    );
}

#[test]
fn unmapping_an_unknown_or_mismatched_region_is_rejected() {
    let mut slots = allocator(8);
    let mapped = region(0x8000, 0x1000, PAGE);
    map_region(&mut slots, &mapped, accept).expect("map a region");

    let cases = [
        (region(0x9000, 0x1000, PAGE), ErrorKind::NotFound),
        (region(0x8000, 0x1000, 2 * PAGE), ErrorKind::InvalidInput),
        (region(0x8000, 0x2000, PAGE), ErrorKind::InvalidInput),
    ];

    for (candidate, expected) in cases {
        let mut attempted = false;
        let error = unmap_region(&mut slots, &candidate, |_| {
            attempted = true;
            Ok(())
        })
        .expect_err("the region does not describe a live mapping");

        assert!(!attempted, "an unknown region must not reach KVM");
        let Error::UnmapMemory { source, .. } = error else {
            panic!("expected an unmap failure, got {error:?}");
        };
        assert_eq!(source.kind(), expected, "for {candidate:?}");
    }
}

#[test]
fn a_failed_registration_returns_the_slot() {
    let mut slots = allocator(1);
    let error = map_region(
        &mut slots,
        &region(0, 0x1000, PAGE),
        reject(ErrorKind::AlreadyExists),
    )
    .expect_err("the host rejected the region");

    let Error::MapMemory {
        guest_addr,
        size,
        source,
    } = error
    else {
        panic!("expected a map failure, got {error:?}");
    };
    assert_eq!((guest_addr, size), (0, PAGE));
    assert_eq!(source.kind(), ErrorKind::AlreadyExists);

    map_region(&mut slots, &region(PAGE as u64, 0x2000, PAGE), accept)
        .expect("the only slot is free again");
}

#[test]
fn a_failed_registration_leaves_nothing_recorded() {
    let mut slots = allocator(4);
    map_region(&mut slots, &region(0, 0x1000, PAGE), accept).expect("map a region");
    let failed = region(0x8000, 0x2000, PAGE);
    map_region(&mut slots, &failed, reject(ErrorKind::OutOfMemory))
        .expect_err("the host rejected the region");

    let error = unmap_region(&mut slots, &failed, accept).expect_err("nothing is mapped there");
    let Error::UnmapMemory { source, .. } = error else {
        panic!("expected an unmap failure, got {error:?}");
    };
    assert_eq!(source.kind(), ErrorKind::NotFound);

    let mut slot = None;
    map_region(&mut slots, &failed, |kvm| {
        slot = Some(kvm.slot);
        Ok(())
    })
    .expect("the same region can be mapped once the host accepts it");
    assert_eq!(slot, Some(1), "the retry gets the slot of the first attempt");
}

#[test]
fn a_failed_removal_keeps_the_mapping() {
    let mut slots = allocator(8);
    let mapped = region(0x8000, 0x1000, PAGE);
    map_region(&mut slots, &mapped, accept).expect("map a region");

    let error = unmap_region(&mut slots, &mapped, reject(ErrorKind::PermissionDenied))
        .expect_err("the host rejected the removal");
    let Error::UnmapMemory { source, .. } = error else {
        panic!("expected an unmap failure, got {error:?}");
    };
    assert_eq!(source.kind(), ErrorKind::PermissionDenied);

    let mut slot = None;
    unmap_region(&mut slots, &mapped, |kvm| {
        slot = Some(kvm.slot);
        Ok(())
    })
    .expect("the mapping is still recorded and can be retried");
    assert_eq!(slot, Some(0), "the retry addresses the original slot");
}

#[test]
fn regions_translate_to_kvm_memory_regions() {
    let region = region(0x8000_0000, 0x7f00_0000, 2 * PAGE);

    let mapping = kvm_region(3, &region);
    assert_eq!(mapping.slot, 3);
    assert_eq!(mapping.guest_phys_addr, 0x8000_0000);
    assert_eq!(mapping.userspace_addr, 0x7f00_0000);
    assert_eq!(mapping.memory_size, 2 * PAGE as u64);
    assert_eq!(mapping.flags, 0);

    let removal = kvm_region_removal(3, region.guest_addr);
    assert_eq!(removal.slot, 3);
    assert_eq!(removal.guest_phys_addr, 0x8000_0000);
    assert_eq!(
        removal.memory_size, 0,
        "KVM drops a mapping whose size is zero"
    );
    assert_eq!((removal.userspace_addr, removal.flags), (0, 0));
}

#[test]
fn refused_regions_name_the_address_and_the_recorded_size() {
    let mut slots = allocator(8);
    slots.reserve(&region(0xdead_beef, 0x1000, 123_456)).expect("reserve");

    let error = slots
        .lookup(&region(0xdead_beef, 0x1000, 1))
        .expect_err("another size");
    assert_eq!(
        error.message(),
        Some("the mapping at guest address 0xdeadbeef covers 123456 bytes of other host memory")
    );

    let error = slots.lookup(&region(0, 0x1000, 1)).expect_err("unknown");
    assert_eq!(error.message(), Some("no mapping at guest address 0x0"));
}

#[test]
fn the_slot_released_last_is_reused_first() {
    let mut slots = allocator(4);
    for index in 0..4u64 {
        let slot = slots.reserve(&region(index, 0x1000, PAGE)).expect("reserve");
        assert_eq!(slot as u64, index);
    }
    slots.release(1);
    slots.forget(3);
    assert_eq!(slots.reserve(&region(10, 0x1000, PAGE)).expect("reserve"), 3);
    assert_eq!(slots.reserve(&region(11, 0x1000, PAGE)).expect("reserve"), 1);
    let error = slots
        .reserve(&region(12, 0x1000, PAGE))
        .expect_err("every slot is in use");
    assert_eq!(error.kind(), ErrorKind::QuotaExceeded);
}

#[test]
fn releasing_an_unknown_address_changes_nothing() {
    let mut slots = allocator(1);
    slots.release(7);
    assert_eq!(slots.reserve(&region(0, 0x1000, PAGE)).expect("reserve"), 0);
    slots.release(7);
    slots
        .reserve(&region(1, 0x1000, PAGE))
        .expect_err("the only slot is still in use");
}

#[test]
fn a_host_without_slots_maps_nothing() {
    let error = allocator(0)
        .reserve(&region(0, 0x1000, PAGE))
        .expect_err("no slot");
    assert_eq!(
        error.message(),
        Some("the host allows only 0 memory slots per VM")
    );
}

#[test]
fn slots_do_not_leak_over_many_remaps() {
    let mut slots = allocator(2);
    map_region(&mut slots, &region(0, 0x1000, PAGE), accept).expect("map");
    for round in 1..1000u64 {
        let next = region(round, 0x1000, PAGE);
        map_region(&mut slots, &next, |kvm| {
            assert_eq!(kvm.slot, 1);
            Ok(())
        })
        .expect("map");
        unmap_region(&mut slots, &next, accept).expect("unmap");
    }
}

#[test]
fn a_mapped_region_is_found_and_an_unmapped_one_is_gone() {
    let mut slots = allocator(8);
    let first = region(0x1000, 0x1000, PAGE);
    let second = region(0x2000, 0x2000, PAGE);
    slots.reserve(&first).expect("reserve");
    slots.reserve(&second).expect("reserve");
    assert_eq!(slots.lookup(&first).expect("found"), 0);
    assert_eq!(slots.lookup(&second).expect("found"), 1);
    slots.forget(first.guest_addr);
    let error = slots.lookup(&first).expect_err("gone");
    assert_eq!(error.kind(), ErrorKind::NotFound);
    assert_eq!(slots.lookup(&second).expect("untouched"), 1);
}
