use boxlite_hypervisor::error::Error;
use boxlite_hypervisor::host::{classify_host_failure, ErrorKind, HostArch, HostError};
use boxlite_hypervisor::irq::{
    encode_irq_line, encode_irq_line_arm64, encode_irq_line_on, KVM_ARM_IRQ_NUM_MASK,
};
use boxlite_hypervisor::memory::MemoryRegion;
use boxlite_hypervisor::vm::{memory_slot_limit, KvmVm, KVM_DEVICE};
use kvm_ioctls::{Kvm, VmFd};

/// Opens a VM through the real device at `path`.
fn open_at(path: &str) -> Result<(KvmVm, VmFd), Error> {
    KvmVm::open_at(path, open_device, create_vm, Kvm::get_nr_memslots)
}

fn open_device(path: &str) -> Result<Kvm, i32> {
    match path {
        "/nonexistent/kvm" => Kvm::new_with_path(c"/nonexistent/kvm"),
        "/dev/null" => Kvm::new_with_path(c"/dev/null"),
        "/dev/kvm" => Kvm::new_with_path(c"/dev/kvm"),
        other => panic!("no test opens {other}"),
    }
    .map_err(|error| error.errno())
}

fn create_vm(kvm: &Kvm) -> Result<VmFd, i32> {
    kvm.create_vm().map_err(|error| error.errno())
}

/// A VM on a host that allows `limit` memory slots.
fn vm(limit: usize) -> KvmVm {
    let (vm, fd) = KvmVm::new(
        |path| {
            assert_eq!(path, KVM_DEVICE);
            Ok(3u8)
        },
        |kvm| Ok(kvm + 1),
        |kvm| {
            assert_eq!(*kvm, 3);
            limit
        },
    )
    .expect("open a VM");
    assert_eq!(fd, 4, "the VM's own handle is handed out");
    vm
}

fn region(guest_addr: u64) -> MemoryRegion {
    MemoryRegion {
        guest_addr,
        host_addr: 0x1000,
        size: 4096,
    }
}

#[test]
fn a_host_without_kvm_is_unsupported() {
    let error = open_at("/nonexistent/kvm").expect_err("there is no device there");
    let Error::CreateVm(source) = error else {
        panic!("expected a VM creation failure, got {error:?}");
    };

    assert_eq!(
        source.kind(),
        ErrorKind::Unsupported,
        "the VMM maps an unsupported host to a distinct client error"
    );
    assert_eq!(source.raw_os_error(), None, "the errno is the cause");
    assert_eq!(
        source.host_errno().expect("the host errno stays reachable"),
        libc::ENOENT
    );
}

#[test]
fn a_device_that_does_not_speak_kvm_is_unsupported() {
    let error = open_at("/dev/null").expect_err("/dev/null answers no KVM ioctl");
    let Error::CreateVm(source) = error else {
        panic!("expected a VM creation failure, got {error:?}");
    };
    assert_eq!(source.kind(), ErrorKind::Unsupported);
}

#[test]
fn host_failures_classify_by_errno() {
    let unsupported = [libc::ENOENT, libc::ENXIO, libc::ENODEV, libc::ENOTTY];
    for errno in unsupported {
        let classified = classify_host_failure(HostError::from_raw_os_error(errno));
        assert_eq!(
            classified.kind(),
            ErrorKind::Unsupported,
            "errno {errno} means this host cannot run VMs"
        );
        assert_eq!(classified.host_errno(), Some(errno));
    }

    let denied = classify_host_failure(HostError::from_raw_os_error(libc::EACCES));
    assert_eq!(denied.kind(), ErrorKind::PermissionDenied);
    assert_eq!(
        denied.raw_os_error(),
        Some(libc::EACCES),
        "a permission failure keeps its errno for the operator log"
    );

    let other = classify_host_failure(HostError::from_raw_os_error(libc::ENOMEM));
    assert_eq!(other.raw_os_error(), Some(libc::ENOMEM));
}

#[test]
fn errno_kinds_are_the_standard_library_s() {
    let cases = [
        (libc::ENOENT, ErrorKind::NotFound),
        (libc::EPERM, ErrorKind::PermissionDenied),
        (libc::EEXIST, ErrorKind::AlreadyExists),
        (libc::EINVAL, ErrorKind::InvalidInput),
        (libc::EDQUOT, ErrorKind::QuotaExceeded),
        (libc::EACCES, ErrorKind::PermissionDenied),
        (libc::ENOMEM, ErrorKind::OutOfMemory),
        (libc::EINTR, ErrorKind::Interrupted),
        (libc::EAGAIN, ErrorKind::WouldBlock),
        (libc::EBUSY, ErrorKind::ResourceBusy),
        (libc::ENOSYS, ErrorKind::Unsupported),
        (libc::ETIMEDOUT, ErrorKind::TimedOut),
        (libc::E2BIG, ErrorKind::ArgumentListTooLong),
        (libc::EIO, ErrorKind::Uncategorized),
    ];
    for (errno, kind) in cases {
        assert_eq!(HostError::from_raw_os_error(errno).kind(), kind);
    }
}

#[test]
fn classifying_leaves_other_errors_alone() {
    let custom = classify_host_failure(HostError::new(ErrorKind::Other, "why".to_string()));
    assert_eq!(custom.kind(), ErrorKind::Other);
    assert_eq!(custom.message(), Some("why"));
    assert_eq!(custom.host_errno(), None);

    let once = classify_host_failure(HostError::from_raw_os_error(libc::ENOTTY));
    let twice = classify_host_failure(once);
    assert_eq!(twice.kind(), ErrorKind::Unsupported);
    assert_eq!(twice.host_errno(), Some(libc::ENOTTY));
}

#[test]
fn an_interrupt_line_is_the_gsi_itself() {
    assert_eq!(
        encode_irq_line(5).expect("a GSI needs no encoding"),
        5,
        "x86 takes the GSI as it stands"
    );
}

#[test]
fn an_interrupt_line_carries_its_gic_type() {
    // The first SPI: KVM reads the top byte as the interrupt type, so a bare 32
    // would raise a CPU interrupt on vCPU 0 instead.
    assert_eq!(
        encode_irq_line_arm64(32).expect("the first SPI is in range"),
        0x0100_0020,
        "an SPI INTID must carry KVM_ARM_IRQ_TYPE_SPI"
    );

    let error = encode_irq_line_arm64(KVM_ARM_IRQ_NUM_MASK + 1)
        .expect_err("an INTID that wide would overflow into the type field");
    assert_eq!(error.kind(), ErrorKind::InvalidInput);
    assert_eq!(
        error.message(),
        Some("interrupt 65536 is beyond the largest GIC INTID KVM accepts")
    );
}

#[test]
fn interrupt_lines_are_encoded_for_their_host() {
    assert_eq!(encode_irq_line_on(HostArch::X86_64, 70_000).expect("a GSI"), 70_000);
    assert_eq!(
        encode_irq_line_on(HostArch::Arm64, 0xffff).expect("the largest INTID"),
        0x0100_ffff
    );
    encode_irq_line_on(HostArch::Arm64, 70_000).expect_err("too wide");
    assert_ne!(
        encode_irq_line_on(HostArch::Arm64, 32).expect("an SPI"),
        encode_irq_line_on(HostArch::Arm64, 33).expect("another SPI")
    );
}

#[test]
fn raising_a_line_without_an_interrupt_controller_fails() {
    let (_vm, fd) = match open_at(KVM_DEVICE) {
        Ok(vm) => vm,
        Err(Error::CreateVm(source))
            if matches!(
                source.kind(),
                ErrorKind::Unsupported | ErrorKind::PermissionDenied
            ) =>
        {
            println!("SKIP raising_a_line_without_an_interrupt_controller_fails: {source:?}");
            return;
        }
        Err(other) => panic!("opening a VM failed unexpectedly: {other:?}"),
    };

    let error = KvmVm::set_irq_line(HostArch::X86_64, 5, true, |line, level| {
        fd.set_irq_line(line, level).map_err(|error| error.errno())
    })
    .expect_err("this step of the backend creates no interrupt controller");

    let Error::SetIrqLine { line, source } = error else {
        panic!("expected an interrupt-line failure, got {error:?}");
    };
    assert_eq!(line, 5);
    assert_eq!(
        source.raw_os_error(),
        Some(libc::ENXIO),
        "KVM reports a missing interrupt controller as ENXIO"
    );
}

#[test]
fn a_line_reaches_the_host_encoded() {
    let mut asked = None;
    KvmVm::set_irq_line(HostArch::Arm64, 32, true, |line, level| {
        asked = Some((line, level));
        Ok(())
    })
    .expect("raise the line");
    assert_eq!(asked, Some((0x0100_0020, true)));

    let error = KvmVm::set_irq_line(HostArch::X86_64, 5, false, |_, _| Err(libc::ENXIO))
        .expect_err("no interrupt controller");
    let Error::SetIrqLine { line, source } = error else {
        panic!("expected an interrupt-line failure, got {error:?}");
    };
    assert_eq!((line, source.raw_os_error()), (5, Some(libc::ENXIO)));

    let error = KvmVm::set_irq_line(HostArch::Arm64, 0x1_0000, true, |_, _| {
        panic!("a line that does not fit must not reach KVM")
    })
    .expect_err("the line does not fit");
    let Error::SetIrqLine { source, .. } = error else {
        panic!("expected an interrupt-line failure, got {error:?}");
    };
    assert_eq!(source.kind(), ErrorKind::InvalidInput);
}

#[test]
fn the_slot_limit_is_clamped() {
    assert_eq!(memory_slot_limit(0), 0);
    assert_eq!(memory_slot_limit(509), 509);
    assert_eq!(memory_slot_limit(u32::MAX as usize), u32::MAX);
    assert_eq!(memory_slot_limit(u32::MAX as usize + 1), u32::MAX);
}

#[test]
fn opening_stops_at_the_first_failure() {
    let error = KvmVm::new::<(), (), _, _, _>(
        |_| Err(libc::EACCES),
        |_| panic!("there is no device"),
        |_| panic!("there is no device"),
    )
    .expect_err("access is denied");
    let Error::CreateVm(source) = error else {
        panic!("expected a VM creation failure, got {error:?}");
    };
    assert_eq!(source.kind(), ErrorKind::PermissionDenied);

    let error = KvmVm::open_at::<(), (), _, _, _>(
        "/dev/other",
        |path| {
            assert_eq!(path, "/dev/other");
            Ok(())
        },
        |_| Err(libc::ENOMEM),
        |_| panic!("there is no VM"),
    )
    .expect_err("no VM");
    let Error::CreateVm(source) = error else {
        panic!("expected a VM creation failure, got {error:?}");
    };
    assert_eq!(source.raw_os_error(), Some(libc::ENOMEM));
}

#[test]
fn a_vm_maps_as_many_regions_as_the_host_allows() {
    let mut vm = vm(1);
    vm.map_memory(&region(0), |kvm| {
        assert_eq!((kvm.slot, kvm.memory_size), (0, 4096));
        Ok(())
    })
    .expect("map");
    let error = vm
        .map_memory(&region(0x1000), |_| panic!("there is no slot left"))
        .expect_err("the limit is reached");
    let Error::MapMemory { source, .. } = error else {
        panic!("expected a map failure, got {error:?}");
    };
    assert_eq!(source.kind(), ErrorKind::QuotaExceeded);

    let error = vm
        .unmap_memory(&region(0), |_| Err(libc::EFAULT))
        .expect_err("the host refused");
    let Error::UnmapMemory {
        guest_addr,
        size,
        source,
    } = error
    else {
        panic!("expected an unmap failure, got {error:?}");
    };
    assert_eq!((guest_addr, size), (0, 4096));
    assert_eq!(source.raw_os_error(), Some(libc::EFAULT));

    vm.unmap_memory(&region(0), |kvm| {
        assert_eq!((kvm.slot, kvm.memory_size), (0, 0));
        Ok(())
    })
    .expect("unmap");
    let error = vm
        .map_memory(&region(0x1000), |_| Err(libc::EEXIST))
        .expect_err("the host refused");
    let Error::MapMemory { source, .. } = error else {
        panic!("expected a map failure, got {error:?}");
    };
    assert_eq!(source.raw_os_error(), Some(libc::EEXIST));
    vm.map_memory(&region(0x1000), |_| Ok(()))
        .expect("the slot was given back");
}

#[test]
fn a_vcpu_that_cannot_be_created_or_armed_is_reported() {
    let error = KvmVm::create_vcpu::<(), (), _, _>(
        7,
        |id| {
            assert_eq!(id, 7);
            Err(libc::EEXIST)
        },
        |_| panic!("there is no vCPU"),
    )
    .expect_err("the vCPU exists");
    let Error::CreateVcpu { id, source } = error else {
        panic!("expected a vCPU creation failure, got {error:?}");
    };
    assert_eq!((id, source.raw_os_error()), (7, Some(libc::EEXIST)));

    let error = KvmVm::create_vcpu::<u8, u8, _, _>(
        7,
        |_| Ok(1),
        |fd| {
            assert_eq!(fd, 1);
            Err(HostError::from_raw_os_error(libc::EPERM))
        },
    )
    .expect_err("kicks are not armed");
    let Error::CreateVcpu { id, source } = error else {
        panic!("expected a vCPU creation failure, got {error:?}");
    };
    assert_eq!((id, source.raw_os_error()), (7, Some(libc::EPERM)));

    let (_, host) =
        KvmVm::create_vcpu(7, |_| Ok(1u8), |fd| Ok(fd + 1)).expect("create the vCPU");
    assert_eq!(host, 2u8);
}
