use boxlite_hypervisor::host::{lock, HostError};
use boxlite_hypervisor::kick::{
    install_kick_handler, install_kick_handler_for, kick_signal, kick_signal_above,
    lowest_real_time_signal, unblock_kick_signal, unblock_signal, ImmediateExit, KickState,
    COMPLETION, KICK,
};

/// A standalone byte standing in for the `kvm_run` field.
struct FakeRun {
    byte: Box<u8>,
}

impl FakeRun {
    fn new() -> Self {
        Self { byte: Box::new(0) }
    }

    fn flag(&mut self) -> ImmediateExit<'_> {
        ImmediateExit::new(&mut self.byte)
    }
}

/// Arms kicks whose flag is the number 7 and whose thread is the number 11.
fn registered() -> KickState<u8> {
    KickState::register(7u8, || Ok(()), || Ok(()), || 11).expect("arm kicks on this thread")
}

#[test]
fn a_kick_and_a_completion_do_not_erase_each_other() {
    let mut run = FakeRun::new();
    let mut flag = run.flag();

    flag.begin_completion();
    flag.set(KICK);
    flag.end_completion();

    assert_eq!(
        flag.requested(),
        KICK,
        "ending a completion must leave a concurrent kick pending"
    );

    flag.begin_completion();
    flag.acknowledge_kick();

    assert_eq!(
        flag.requested(),
        COMPLETION,
        "acknowledging a kick must leave a concurrent completion pending"
    );
}

#[test]
fn acknowledging_a_kick_clears_the_request() {
    let mut run = FakeRun::new();
    let mut flag = run.flag();

    flag.set(KICK);
    assert_ne!(
        flag.requested(),
        0,
        "KVM leaves the guest on any non-zero byte"
    );

    flag.acknowledge_kick();
    assert_eq!(
        flag.requested(),
        0,
        "an acknowledged kick must not exit twice"
    );
}

#[test]
fn kicking_a_registered_vcpu_requests_an_exit() {
    let mut run = FakeRun::new();
    let signal = kick_signal().expect("a kick signal");
    let state = registered();

    let mut sent = None;
    state
        .kick(
            |handle, bits| {
                assert_eq!(*handle, 7);
                run.flag().set(bits);
            },
            |thread, signal| {
                sent = Some((thread, signal));
                0
            },
        )
        .expect("a kick signal")
        .expect("kick the calling thread");

    assert_eq!(
        run.flag().requested(),
        KICK,
        "a kick must request an exit before signalling"
    );
    assert_eq!(sent, Some((11, signal)));
}

#[test]
fn kicking_a_dropped_vcpu_does_nothing() {
    let mut run = FakeRun::new();
    let mut state = registered();

    state.deregister();
    state
        .kick(
            |_, bits| run.flag().set(bits),
            |_, _| panic!("a dropped vCPU must not be signalled"),
        )
        .expect("no signal is asked for")
        .expect("kicking a dropped vCPU is not an error");

    assert_eq!(
        run.flag().requested(),
        0,
        "a dropped vCPU must not be signalled"
    );
}

#[test]
fn the_kick_signal_is_a_free_real_time_signal() {
    let signal = kick_signal().expect("a kick signal");

    assert!(
        signal > vmm_sys_util::signal::SIGRTMIN(),
        "SIGRTMIN itself belongs to libkrun while both VMMs share a process"
    );
    assert!(
        signal <= vmm_sys_util::signal::SIGRTMAX(),
        "the kick signal must be a real-time signal"
    );
    assert_eq!(Some(signal), kick_signal_above(vmm_sys_util::signal::SIGRTMIN()));
    assert_eq!(signal, vmm_sys_util::signal::SIGRTMIN() + 1);
    assert_eq!(Some(signal), kick_signal(), "the signal is the same on every call");
}

#[test]
fn the_lowest_real_time_signal_is_the_c_library_s() {
    assert_eq!(lowest_real_time_signal(), vmm_sys_util::signal::SIGRTMIN());
}

#[test]
fn the_kick_signal_is_one_above_the_lowest() {
    assert_eq!(kick_signal_above(34), Some(35));
    assert_eq!(kick_signal_above(i32::MAX), None);
}

#[test]
fn setting_and_clearing_leave_other_bits_alone() {
    let mut byte = 0b1010_0000u8;
    let mut flag = ImmediateExit::new(&mut byte);
    flag.set(0b0000_0101);
    flag.clear(0b1000_0001);
    assert_eq!(flag.requested(), 0b0010_0100);
    assert_eq!(byte, 0b0010_0100, "the borrowed byte is the one that changed");
}

#[test]
fn a_kick_in_the_middle_of_a_completion_outlives_it() {
    let mut byte = 0u8;
    let mut flag = ImmediateExit::new(&mut byte);
    flag.begin_completion();
    flag.set(KICK);
    flag.set(KICK);
    flag.end_completion();
    flag.acknowledge_kick();
    assert_eq!(flag.requested(), 0);
}

#[test]
fn the_flag_is_set_before_the_signal_is_sent() {
    let steps = std::cell::RefCell::new(Vec::new());
    registered()
        .kick_with(
            35,
            |_, _| steps.borrow_mut().push("request"),
            |_, _| {
                steps.borrow_mut().push("signal");
                0
            },
        )
        .expect("kick");
    assert_eq!(steps.into_inner(), vec!["request", "signal"]);
}

#[test]
fn a_signal_that_cannot_be_sent_is_reported() {
    let error = registered()
        .kick_with(35, |_, _| {}, |_, _| libc::ESRCH)
        .expect_err("the thread is gone");
    assert_eq!(error.raw_os_error(), Some(libc::ESRCH));
}

#[test]
fn arming_stops_at_the_first_failure() {
    let mut unblocked = false;
    let error = KickState::register(
        (),
        || Err(HostError::from_raw_os_error(libc::EINVAL)),
        || {
            unblocked = true;
            Ok(())
        },
        || 1,
    )
    .expect_err("the handler was not installed");
    assert_eq!(error.raw_os_error(), Some(libc::EINVAL));
    assert!(!unblocked, "a signal without a handler must stay blocked");

    let error = KickState::register(
        (),
        || Ok(()),
        || Err(HostError::from_raw_os_error(libc::EPERM)),
        || panic!("no thread to record"),
    )
    .expect_err("the signal stays blocked");
    assert_eq!(error.raw_os_error(), Some(libc::EPERM));
}

#[test]
fn the_handler_is_installed_once() {
    let mut installed = None;
    let mut signals = Vec::new();
    install_kick_handler_for(&mut installed, 35, |signal| {
        signals.push(signal);
        Ok(())
    })
    .expect("install");
    install_kick_handler_for(&mut installed, 35, |signal| {
        signals.push(signal);
        Err(libc::EINVAL)
    })
    .expect("already installed");
    assert_eq!(signals, vec![35]);
}

#[test]
fn a_failed_installation_stays_failed() {
    let mut installed = None;
    for _ in 0..2 {
        let error = install_kick_handler_for(&mut installed, 35, |_| Err(libc::EINVAL))
            .expect_err("the handler was not installed");
        assert_eq!(error.raw_os_error(), Some(libc::EINVAL));
    }
    assert_eq!(installed, Some(Err(libc::EINVAL)));
}

#[test]
fn unblocking_hands_the_signal_on() {
    unblock_signal(
        35,
        || (0, Vec::new()),
        |mut set: Vec<i32>, signal| {
            set.push(signal);
            (0, set)
        },
        |set| {
            assert_eq!(set, vec![35]);
            0
        },
        || panic!("nothing failed"),
    )
    .expect("unblock");
}

#[test]
fn unblocking_reports_where_it_failed() {
    let error = unblock_signal(
        35,
        || (-1, ()),
        |_, _| panic!("there is no set"),
        |_| panic!("there is no set"),
        || libc::ENOMEM,
    )
    .expect_err("no set");
    assert_eq!(error.raw_os_error(), Some(libc::ENOMEM));

    let error = unblock_signal(
        35,
        || (0, ()),
        |_, _| (-1, ()),
        |_| panic!("the signal is not in the set"),
        || libc::EINVAL,
    )
    .expect_err("no such signal");
    assert_eq!(error.raw_os_error(), Some(libc::EINVAL));

    let error = unblock_signal(
        35,
        || (0, ()),
        |_, _| (0, ()),
        |_| libc::EFAULT,
        || panic!("the call returns its error number"),
    )
    .expect_err("the mask was not changed");
    assert_eq!(error.raw_os_error(), Some(libc::EFAULT));
}

#[test]
fn a_kick_that_fails_is_reported() {
    let error = registered()
        .kick(|_, _| {}, |_, _| libc::ESRCH)
        .expect("a kick signal")
        .expect_err("the thread is gone");
    assert_eq!(error.raw_os_error(), Some(libc::ESRCH));
}

#[test]
fn a_dropped_vcpu_is_left_alone_whatever_the_signal() {
    let mut state = registered();
    state.deregister();
    state
        .kick_with(35, |_, _| panic!("no flag"), |_, _| panic!("no thread"))
        .expect("kicking a dropped vCPU is not an error");
}

#[test]
fn one_signal_is_installed_unblocked_and_sent() {
    let lowest = vmm_sys_util::signal::SIGRTMIN();

    let mut installed = None;
    let mut handled = Vec::new();
    for _ in 0..2 {
        install_kick_handler(&mut installed, |signal| {
            handled.push(signal);
            Ok(())
        })
        .expect("a kick signal")
        .expect("install");
    }
    assert_eq!(handled, vec![lowest + 1]);
    assert_eq!(installed, Some(Ok(())));

    let mut unblocked = Vec::new();
    unblock_kick_signal(
        || (0, Vec::new()),
        |mut set: Vec<i32>, signal| {
            set.push(signal);
            (0, set)
        },
        |set| {
            unblocked = set;
            0
        },
        || panic!("nothing failed"),
    )
    .expect("a kick signal")
    .expect("unblock");
    assert_eq!(unblocked, vec![lowest + 1]);

    let mut sent = None;
    registered()
        .kick(
            |_, _| {},
            |thread, signal| {
                sent = Some((thread, signal));
                0
            },
        )
        .expect("a kick signal")
        .expect("kick");
    assert_eq!(sent, Some((11, lowest + 1)));
}

#[test]
fn a_failure_to_arm_the_kick_signal_is_reported() {
    let mut installed = None;
    let error = install_kick_handler(&mut installed, |_| Err(libc::EINVAL))
        .expect("a kick signal")
        .expect_err("the handler was not installed");
    assert_eq!(error.raw_os_error(), Some(libc::EINVAL));
    assert_eq!(installed, Some(Err(libc::EINVAL)));

    let error = unblock_kick_signal(
        || (-1, ()),
        |_, _| panic!("there is no set"),
        |_| panic!("there is no set"),
        || libc::ENOMEM,
    )
    .expect("a kick signal")
    .expect_err("no set");
    assert_eq!(error.raw_os_error(), Some(libc::ENOMEM));
}

#[test]
fn a_poisoned_lock_is_recovered() {
    let mut cleared = 0;
    assert_eq!(lock::<u8, _>(Err(2), || cleared += 1), 2);
    assert_eq!(cleared, 1, "the poison is cleared");
}

#[test]
fn a_sound_lock_is_handed_on() {
    assert_eq!(lock::<u8, _>(Ok(1), || panic!("there is no poison to clear")), 1);
}

#[test]
fn a_kick_before_the_entry_turns_the_vcpu_back_until_acknowledged() {
    let mut byte = 0u8;
    ImmediateExit::new(&mut byte).set(KICK);
    for _ in 0..3 {
        ImmediateExit::new(&mut byte).begin_completion();
        ImmediateExit::new(&mut byte).end_completion();
        assert_ne!(ImmediateExit::new(&mut byte).requested(), 0);
    }
    ImmediateExit::new(&mut byte).acknowledge_kick();
    assert_eq!(ImmediateExit::new(&mut byte).requested(), 0);
}
