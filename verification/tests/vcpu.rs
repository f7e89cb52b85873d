use boxlite_hypervisor::error::Error;
use boxlite_hypervisor::exit::{
    access_width, completion_result, decode_exit, decode_exit_on, guest_ran, is_interrupt,
    KvmExit, KvmOutcome, VcpuExit,
};
use boxlite_hypervisor::host::{ErrorKind, HostArch, HostError};
use boxlite_hypervisor::vcpu::KvmVcpu;
use kvm_bindings::{KVM_SYSTEM_EVENT_CRASH, KVM_SYSTEM_EVENT_RESET, KVM_SYSTEM_EVENT_SHUTDOWN};
use kvm_ioctls::VcpuExit as HostExit;

const VCPU: u32 = 7;

fn failing(errno: i32) -> KvmOutcome<'static> {
    Err(errno)
}

/// An exit of kvm-ioctls as plain values.
fn plain(exit: HostExit<'_>) -> KvmExit<'_> {
    match exit {
        HostExit::IoOut(port, bytes) => KvmExit::IoOut(port, bytes),
        HostExit::IoIn(port, bytes) => KvmExit::IoIn(port, bytes),
        HostExit::MmioRead(guest_addr, bytes) => KvmExit::MmioRead(guest_addr, bytes),
        HostExit::MmioWrite(guest_addr, bytes) => KvmExit::MmioWrite(guest_addr, bytes),
        HostExit::Hlt => KvmExit::Hlt,
        HostExit::Shutdown => KvmExit::Shutdown,
        HostExit::FailEntry(reason, cpu) => KvmExit::FailEntry(reason, cpu),
        HostExit::Intr => KvmExit::Intr,
        HostExit::InternalError => KvmExit::InternalError,
        HostExit::SystemEvent(event, data) => KvmExit::SystemEvent(event, data),
        HostExit::Unsupported(reason) => KvmExit::Unsupported(reason),
        other => KvmExit::Other(format!("{other:?}")),
    }
}

fn vcpu() -> KvmVcpu {
    let (vcpu, fd) = KvmVcpu::new(VCPU, 3u8, Ok).expect("arm kicks");
    assert_eq!(fd, 3);
    vcpu
}

#[test]
fn guest_exits_decode_to_the_vmm_contract() {
    let mut mmio_read = [0u8; 4];
    let mmio_write = [1u8, 2, 3, 4];

    assert!(matches!(
        decode_exit(VCPU, Ok(plain(HostExit::MmioRead(0x1000, &mut mmio_read)))),
        Ok(VcpuExit::MmioRead {
            guest_addr: 0x1000,
            bytes
        }) if bytes.len() == 4
    ));
    assert!(matches!(
        decode_exit(VCPU, Ok(plain(HostExit::MmioWrite(0x2000, &mmio_write)))),
        Ok(VcpuExit::MmioWrite {
            guest_addr: 0x2000,
            bytes
        }) if bytes == [1, 2, 3, 4]
    ));
    assert!(matches!(
        decode_exit(VCPU, Ok(plain(HostExit::Hlt))),
        Ok(VcpuExit::Halted)
    ));
    assert!(
        matches!(
            decode_exit(VCPU, Ok(plain(HostExit::Shutdown))),
            Ok(VcpuExit::Reset)
        ),
        "an x86 triple fault is a guest reset"
    );
    assert!(matches!(
        decode_exit(
            VCPU,
            Ok(plain(HostExit::SystemEvent(KVM_SYSTEM_EVENT_SHUTDOWN, &[])))
        ),
        Ok(VcpuExit::Shutdown)
    ));
    assert!(matches!(
        decode_exit(
            VCPU,
            Ok(plain(HostExit::SystemEvent(KVM_SYSTEM_EVENT_RESET, &[])))
        ),
        Ok(VcpuExit::Reset)
    ));
}

#[test]
fn single_port_accesses_decode_and_string_accesses_do_not() {
    let mut inbound = [0u8; 2];
    assert!(matches!(
        decode_exit(VCPU, Ok(plain(HostExit::IoIn(0x3f8, &mut inbound)))),
        Ok(VcpuExit::IoIn { port: 0x3f8, bytes }) if bytes.len() == 2
    ));

    let outbound = *b"x";
    assert!(matches!(
        decode_exit(VCPU, Ok(plain(HostExit::IoOut(0x3f8, &outbound)))),
        Ok(VcpuExit::IoOut { port: 0x3f8, bytes }) if bytes == b"x"
    ));

    let string_access = [0u8; 8];
    let error = decode_exit(VCPU, Ok(plain(HostExit::IoOut(0x3f8, &string_access))))
        .expect_err("a string access is not one access");
    let Error::UnhandledExit { id, reason } = error else {
        panic!("expected an unhandled exit");
    };
    assert_eq!(id, VCPU);
    assert!(
        reason.contains("string port I/O of 8 bytes") && reason.contains("0x3f8"),
        "the reason names the width and the port: {reason}"
    );
    assert_eq!(reason, "string port I/O of 8 bytes on port 0x3f8");
}

#[test]
fn interruptions_are_reported_without_an_error() {
    for outcome in [Ok(plain(HostExit::Intr)), failing(libc::EINTR)] {
        assert!(is_interrupt(&outcome), "the kick must be acknowledged");
        assert!(matches!(
            decode_exit(VCPU, outcome),
            Ok(VcpuExit::Interrupted)
        ));
    }

    let retry = failing(libc::EAGAIN);
    assert!(
        !is_interrupt(&retry),
        "a bare retry acknowledges no kick, or a pending kick would be lost"
    );
    assert!(matches!(
        decode_exit(VCPU, retry),
        Ok(VcpuExit::Interrupted)
    ));
}

#[test]
fn unexplained_exits_carry_a_diagnostic_reason() {
    let crashed = format!("system event {KVM_SYSTEM_EVENT_CRASH}");
    let cases: [(KvmOutcome<'static>, &str); 4] = [
        (
            Ok(plain(HostExit::FailEntry(0x8, 3))),
            "hardware entry failure 0x8 on host CPU 3",
        ),
        (Ok(plain(HostExit::InternalError)), "KVM internal error"),
        (
            Ok(plain(HostExit::Unsupported(42))),
            "unsupported KVM exit reason 42",
        ),
        (
            Ok(plain(HostExit::SystemEvent(KVM_SYSTEM_EVENT_CRASH, &[]))),
            &crashed,
        ),
    ];

    for (outcome, expected) in cases {
        let error = decode_exit(VCPU, outcome).expect_err("the backend cannot handle this");
        let Error::UnhandledExit { id, reason } = error else {
            panic!("expected an unhandled exit, got {error:?}");
        };
        assert_eq!(id, VCPU);
        assert_eq!(reason, expected);
    }

    let error = decode_exit(VCPU, Ok(plain(HostExit::IrqWindowOpen)))
        .expect_err("an exit the backend never asked for");
    let Error::UnhandledExit { reason, .. } = error else {
        panic!("expected an unhandled exit");
    };
    assert!(
        reason.starts_with("unexpected KVM exit"),
        "the catch-all names the exit: {reason}"
    );
    assert_eq!(reason, "unexpected KVM exit IrqWindowOpen");
}

#[test]
fn a_failed_entry_keeps_the_host_errno() {
    let error = decode_exit(VCPU, failing(libc::EFAULT)).expect_err("the ioctl failed");
    let Error::RunVcpu { id, source } = error else {
        panic!("expected a run failure, got {error:?}");
    };
    assert_eq!(id, VCPU);
    assert_eq!(
        source.raw_os_error(),
        Some(libc::EFAULT),
        "the VMM maps unsupported and permission failures by errno"
    );
}

#[test]
fn completion_accepts_only_an_entry_that_ran_no_instruction() {
    for outcome in [Ok(plain(HostExit::Intr)), failing(libc::EINTR)] {
        completion_result(VCPU, outcome).expect("the access completed without the guest");
    }

    let error = completion_result(VCPU, Ok(plain(HostExit::Hlt)))
        .expect_err("a guest exit means an instruction ran");
    let Error::CompletePendingIo { id, source } = error else {
        panic!("expected a completion failure, got {error:?}");
    };
    assert_eq!(id, VCPU);
    assert!(
        source.message().expect("a diagnostic").contains("Hlt"),
        "names the exit: {source:?}"
    );
    assert_eq!(source.kind(), ErrorKind::Other);
    assert_eq!(
        source.message(),
        Some("the guest ran and exited with Hlt")
    );

    let error =
        completion_result(VCPU, failing(libc::EFAULT)).expect_err("the ioctl failed outright");
    let Error::CompletePendingIo { source, .. } = error else {
        panic!("expected a completion failure");
    };
    assert_eq!(source.raw_os_error(), Some(libc::EFAULT));
}

#[test]
fn a_completion_that_asks_for_a_retry_has_failed() {
    let error =
        completion_result(VCPU, failing(libc::EAGAIN)).expect_err("only an interruption completes");
    let Error::CompletePendingIo { source, .. } = error else {
        panic!("expected a completion failure");
    };
    assert_eq!(source.raw_os_error(), Some(libc::EAGAIN));
}

/// What the failure of a completion entry says of the exit.
fn named(exit: KvmExit<'_>) -> String {
    let error = completion_result(VCPU, Ok(exit)).expect_err("the guest ran");
    let Error::CompletePendingIo { id, source } = error else {
        panic!("expected a completion failure, got {error:?}");
    };
    assert_eq!(id, VCPU);
    assert_eq!(source.kind(), ErrorKind::Other);
    source.message().expect("a diagnostic").to_string()
}

#[test]
fn a_completion_that_ran_the_guest_prints_the_exit() {
    let mut inbound = [5u8, 6];
    let mut read = [7u8; 4];
    let cases = [
        (
            named(plain(HostExit::IoOut(0x3f8, b"x"))),
            format!("{:?}", HostExit::IoOut(0x3f8, b"x")),
        ),
        (
            named(plain(HostExit::IoIn(0x3f8, &mut inbound))),
            format!("{:?}", HostExit::IoIn(0x3f8, &mut [5, 6])),
        ),
        (
            named(plain(HostExit::MmioRead(0x1000, &mut read))),
            format!("{:?}", HostExit::MmioRead(0x1000, &mut [7; 4])),
        ),
        (
            named(plain(HostExit::MmioWrite(0x2000, &[1, 2]))),
            format!("{:?}", HostExit::MmioWrite(0x2000, &[1, 2])),
        ),
        (named(plain(HostExit::Hlt)), "Hlt".to_string()),
        (named(plain(HostExit::Shutdown)), "Shutdown".to_string()),
        (named(plain(HostExit::FailEntry(0x8, 3))), "FailEntry(8, 3)".to_string()),
        (named(plain(HostExit::InternalError)), "InternalError".to_string()),
        (
            named(plain(HostExit::SystemEvent(KVM_SYSTEM_EVENT_CRASH, &[9]))),
            format!("{:?}", HostExit::SystemEvent(KVM_SYSTEM_EVENT_CRASH, &[9])),
        ),
        (named(plain(HostExit::Unsupported(42))), "Unsupported(42)".to_string()),
        (named(plain(HostExit::IrqWindowOpen)), "IrqWindowOpen".to_string()),
        (
            named(plain(HostExit::MemoryFault { flags: 1, gpa: 2, size: 3 })),
            format!("{:?}", HostExit::MemoryFault { flags: 1, gpa: 2, size: 3 }),
        ),
    ];
    for (message, printed) in cases {
        assert_eq!(message, format!("the guest ran and exited with {printed}"));
    }
    assert_eq!(
        named(KvmExit::MmioRead(0x1000, &mut read)),
        "the guest ran and exited with MmioRead(4096, [7, 7, 7, 7])"
    );
    assert_eq!((inbound, read), ([5, 6], [7; 4]), "a failed completion fills nothing in");
}

#[test]
fn a_completion_failure_names_the_vcpu_and_the_exit() {
    let Error::CompletePendingIo { id, source } = guest_ran(3, "Hlt") else {
        panic!("expected a completion failure");
    };
    assert_eq!(id, 3);
    assert_eq!(source.kind(), ErrorKind::Other);
    assert_eq!(source.message(), Some("the guest ran and exited with Hlt"));
    assert_eq!(source.host_errno(), None);
}

#[test]
fn widths_of_one_instruction_are_accepted() {
    for len in [1, 2, 4] {
        access_width(len).expect("one instruction can do that");
    }
    for (len, reason) in [
        (0, "string port I/O of 0 bytes"),
        (3, "string port I/O of 3 bytes"),
        (4096, "string port I/O of 4096 bytes"),
    ] {
        assert_eq!(access_width(len).expect_err("a string access"), reason);
    }
}

#[test]
fn port_accesses_are_unhandled_on_arm64() {
    let mut inbound = [5u8; 2];
    let error = decode_exit_on(HostArch::Arm64, VCPU, Ok(KvmExit::IoIn(0x3f8, &mut inbound)))
        .expect_err("there are no ports");
    let Error::UnhandledExit { id, reason } = error else {
        panic!("expected an unhandled exit, got {error:?}");
    };
    assert_eq!(id, VCPU);
    assert_eq!(reason, "port I/O on port 0x3f8 on a non-x86 host");
    assert_eq!(inbound, [5, 5]);

    assert!(matches!(
        decode_exit_on(HostArch::Arm64, VCPU, Ok(KvmExit::Hlt)),
        Ok(VcpuExit::Halted)
    ));
}

#[test]
fn what_the_vmm_reads_in_reaches_kvm_s_buffer() {
    let mut buffer = [0u8; 4];
    let exit = decode_exit(VCPU, Ok(KvmExit::MmioRead(0x1000, &mut buffer))).expect("a read");
    let VcpuExit::MmioRead { bytes, .. } = exit else {
        panic!("expected a read");
    };
    bytes[2] = 9;
    assert_eq!(buffer, [0, 0, 9, 0]);
}

#[test]
fn an_interrupted_run_acknowledges_the_kick() {
    let mut acknowledged = 0;
    let exit = vcpu()
        .run(
            HostArch::X86_64,
            || failing(libc::EINTR),
            || acknowledged += 1,
        )
        .expect("an interruption");
    assert!(matches!(exit, VcpuExit::Interrupted));
    assert_eq!(acknowledged, 1);
}

#[test]
fn other_runs_acknowledge_nothing() {
    let retry = vcpu()
        .run(
            HostArch::X86_64,
            || failing(libc::EAGAIN),
            || panic!("a pending kick would be lost"),
        )
        .expect("a retry");
    assert!(matches!(retry, VcpuExit::Interrupted));

    let error = vcpu()
        .run(
            HostArch::X86_64,
            || failing(libc::EFAULT),
            || panic!("nothing was interrupted"),
        )
        .expect_err("the ioctl failed");
    let Error::RunVcpu { id, source } = error else {
        panic!("expected a run failure, got {error:?}");
    };
    assert_eq!((id, source.raw_os_error()), (VCPU, Some(libc::EFAULT)));
}

#[test]
fn a_completion_withdraws_its_request_whatever_happened() {
    let steps = std::cell::RefCell::new(Vec::new());
    vcpu()
        .complete_pending_io(
            || steps.borrow_mut().push("begin"),
            || {
                steps.borrow_mut().push("enter");
                failing(libc::EINTR)
            },
            || steps.borrow_mut().push("end"),
        )
        .expect("completed");
    assert_eq!(steps.into_inner(), vec!["begin", "enter", "end"]);

    let mut ended = false;
    let error = vcpu()
        .complete_pending_io(
            || {},
            || Ok(KvmExit::Hlt),
            || ended = true,
        )
        .expect_err("the guest ran");
    assert!(ended);
    let Error::CompletePendingIo { id, source } = error else {
        panic!("expected a completion failure, got {error:?}");
    };
    assert_eq!(id, VCPU);
    assert_eq!(
        source.message(),
        Some("the guest ran and exited with Hlt")
    );
}

#[test]
fn a_failed_kick_names_the_vcpu() {
    let handle = vcpu().handle();
    handle.kick(|| Ok(())).expect("kicked");
    let error = handle
        .kick(|| Err(HostError::from_raw_os_error(libc::ESRCH)))
        .expect_err("the thread is gone");
    let Error::KickVcpu { id, source } = error else {
        panic!("expected a kick failure, got {error:?}");
    };
    assert_eq!((id, source.raw_os_error()), (VCPU, Some(libc::ESRCH)));
}
