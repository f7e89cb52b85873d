//! Forcing a running vCPU back out to the VMM, from any thread.
//!
//! KVM leaves the guest when `kvm_run.immediate_exit` is non-zero at entry, and
//! `KVM_RUN` fails with `EINTR` when a signal arrives while the vCPU is inside
//! the guest. Neither alone is enough: the flag does not disturb a vCPU that is
//! already running, and a signal that lands just before entry is lost. The
//! kicking thread therefore sets the flag and then signals.
//!
//! The flag is shared between threads, and each access to it is one atomic
//! step. [`ImmediateExit`] says what one step does to the byte; the laws below
//! hold of every order in which the steps of several threads can happen.

use vstd::prelude::*;

use crate::host::{
    host_answer, host_outcome, reported_errno, returned_errno, HostError,
};

verus! {

/// Offset from `SIGRTMIN` for the signal that interrupts `KVM_RUN`.
///
/// One, not zero: libkrun kicks its own vCPUs with `SIGRTMIN` and is linked
/// into the same process. Two handlers on one signal would fight over the same
/// `sigaction`.
pub const KICK_SIGNAL_OFFSET: i32 = 1;

/// `immediate_exit` bit claimed by [`KickState::kick`].
pub const KICK: u8 = 0b01;

/// `immediate_exit` bit claimed by a pending-I/O completion.
///
/// A separate bit from [`KICK`] so that completing an access and kicking cannot
/// erase each other: KVM only tests the byte for non-zero, so both can be set.
pub const COMPLETION: u8 = 0b10;

/// The `immediate_exit` byte inside a vCPU's `kvm_run` mapping, for the length
/// of one access.
#[derive(Debug)]
pub struct ImmediateExit<'a> {
    pub flag: &'a mut u8,
}

impl<'a> ImmediateExit<'a> {
    /// The byte as it stands.
    pub open spec fn byte(self) -> u8 {
        *self.flag
    }

    /// Borrows the `immediate_exit` byte.
    pub fn new(flag: &'a mut u8) -> (exit: Self)
        ensures
            exit.byte() == *old(flag),
            *final(exit.flag) == *final(flag),
    {
        ImmediateExit { flag }
    }

    /// Reads the byte as KVM would at guest entry.
    pub fn requested(&self) -> (byte: u8)
        ensures
            byte == self.byte(),
    {
        *self.flag
    }

    /// Requests an exit for `bits`, leaving the other bits alone.
    pub fn set(&mut self, bits: u8)
        ensures
            final(self).byte() == old(self).byte() | bits,
            *final(final(self).flag) == *final(old(self).flag),
    {
        *self.flag = *self.flag | bits;
    }

    /// Withdraws the request for `bits`, leaving the other bits alone.
    pub fn clear(&mut self, bits: u8)
        ensures
            final(self).byte() == old(self).byte() & !bits,
            *final(final(self).flag) == *final(old(self).flag),
    {
        *self.flag = *self.flag & !bits;
    }

    /// Acknowledges a kick once the vCPU has left the guest because of it.
    pub fn acknowledge_kick(&mut self)
        ensures
            final(self).byte() == after(old(self).byte(), Access::AcknowledgeKick),
            final(self).byte() == old(self).byte() & !0b01u8,
            *final(final(self).flag) == *final(old(self).flag),
    {
        self.clear(KICK);
    }

    /// Asks KVM to leave the guest without executing another instruction.
    pub fn begin_completion(&mut self)
        ensures
            final(self).byte() == after(old(self).byte(), Access::BeginCompletion),
            final(self).byte() == old(self).byte() | 0b10u8,
            *final(final(self).flag) == *final(old(self).flag),
    {
        self.set(COMPLETION);
    }

    /// Withdraws the completion request made by [`begin_completion`].
    ///
    /// [`begin_completion`]: Self::begin_completion
    pub fn end_completion(&mut self)
        ensures
            final(self).byte() == after(old(self).byte(), Access::EndCompletion),
            final(self).byte() == old(self).byte() & !0b10u8,
            *final(final(self).flag) == *final(old(self).flag),
    {
        self.clear(COMPLETION);
    }
}

/// What a thread does to the `immediate_exit` byte in one atomic step.
pub enum Access {
    /// A kicking thread sets [`KICK`].
    Kick,
    /// The vCPU thread acknowledges a kick.
    AcknowledgeKick,
    /// The vCPU thread starts to complete a pending access.
    BeginCompletion,
    /// The vCPU thread is done completing it.
    EndCompletion,
}

/// The byte after one access.
pub open spec fn after(byte: u8, access: Access) -> u8 {
    match access {
        Access::Kick => byte | KICK,
        Access::AcknowledgeKick => byte & !KICK,
        Access::BeginCompletion => byte | COMPLETION,
        Access::EndCompletion => byte & !COMPLETION,
    }
}

/// The byte after the accesses of all threads, in the order they happened.
pub open spec fn after_all(byte: u8, accesses: Seq<Access>) -> u8
    decreases accesses.len(),
{
    if accesses.len() == 0 {
        byte
    } else {
        after(after_all(byte, accesses.drop_last()), accesses.last())
    }
}

/// A kick is pending: the last kick has not been acknowledged since.
pub open spec fn kick_pending(before: bool, accesses: Seq<Access>) -> bool
    decreases accesses.len(),
{
    if accesses.len() == 0 {
        before
    } else {
        match accesses.last() {
            Access::Kick => true,
            Access::AcknowledgeKick => false,
            _ => kick_pending(before, accesses.drop_last()),
        }
    }
}

/// A completion is under way: the last one begun has not ended since.
pub open spec fn completion_pending(before: bool, accesses: Seq<Access>) -> bool
    decreases accesses.len(),
{
    if accesses.len() == 0 {
        before
    } else {
        match accesses.last() {
            Access::BeginCompletion => true,
            Access::EndCompletion => false,
            _ => completion_pending(before, accesses.drop_last()),
        }
    }
}

/// One access sets or clears its own bit and no other.
pub proof fn one_access(byte: u8, access: Access)
    ensures
        after(byte, access) & KICK != 0 <==> match access {
            Access::Kick => true,
            Access::AcknowledgeKick => false,
            _ => byte & KICK != 0,
        },
        after(byte, access) & COMPLETION != 0 <==> match access {
            Access::BeginCompletion => true,
            Access::EndCompletion => false,
            _ => byte & COMPLETION != 0,
        },
        after(byte, access) & 0xfcu8 == byte & 0xfcu8,
{
    let kicked: u8 = byte | 1u8;
    let acknowledged: u8 = byte & !1u8;
    let begun: u8 = byte | 2u8;
    let ended: u8 = byte & !2u8;
    assert(kicked & 1u8 != 0 && kicked & 2u8 == byte & 2u8 && kicked & 0xfcu8 == byte & 0xfcu8)
        by (bit_vector)
        requires
            kicked == byte | 1u8,
    ;
    assert(acknowledged & 1u8 == 0 && acknowledged & 2u8 == byte & 2u8 && acknowledged & 0xfcu8
        == byte & 0xfcu8) by (bit_vector)
        requires
            acknowledged == byte & !1u8,
    ;
    assert(begun & 2u8 != 0 && begun & 1u8 == byte & 1u8 && begun & 0xfcu8 == byte & 0xfcu8)
        by (bit_vector)
        requires
            begun == byte | 2u8,
    ;
    assert(ended & 2u8 == 0 && ended & 1u8 == byte & 1u8 && ended & 0xfcu8 == byte & 0xfcu8)
        by (bit_vector)
        requires
            ended == byte & !2u8,
    ;
}

/// A kick and a completion do not erase each other, however the accesses of
/// the kicking threads and of the vCPU thread interleave: the kick bit is set
/// exactly while a kick is unacknowledged, the completion bit exactly while a
/// completion is under way, and no other bit of the byte changes.
pub proof fn a_kick_and_a_completion_do_not_erase_each_other(byte: u8, accesses: Seq<Access>)
    ensures
        after_all(byte, accesses) & KICK != 0 <==> kick_pending(byte & KICK != 0, accesses),
        after_all(byte, accesses) & COMPLETION != 0 <==> completion_pending(
            byte & COMPLETION != 0,
            accesses,
        ),
        after_all(byte, accesses) & 0xfcu8 == byte & 0xfcu8,
    decreases accesses.len(),
{
    if accesses.len() > 0 {
        a_kick_and_a_completion_do_not_erase_each_other(byte, accesses.drop_last());
        one_access(after_all(byte, accesses.drop_last()), accesses.last());
    }
}

/// KVM leaves the guest on any non-zero byte. On a byte that starts at zero
/// that is exactly while a kick is unacknowledged or a completion is under way:
/// no kick is lost, and an acknowledged kick does not exit twice.
pub proof fn the_guest_is_left_exactly_when_asked(accesses: Seq<Access>)
    ensures
        after_all(0, accesses) != 0 <==> kick_pending(false, accesses) || completion_pending(
            false,
            accesses,
        ),
{
    let byte: u8 = after_all(0, accesses);
    a_kick_and_a_completion_do_not_erase_each_other(0, accesses);
    assert(0u8 & 1u8 == 0 && 0u8 & 2u8 == 0 && 0u8 & 0xfcu8 == 0) by (bit_vector);
    assert(byte != 0 <==> byte & 1u8 != 0 || byte & 2u8 != 0 || byte & 0xfcu8 != 0) by (bit_vector);
}

/// What the vCPU thread, KVM and the kicking threads do, in the order it happens.
pub enum Step {
    /// A thread accesses the `immediate_exit` byte.
    Access(Access),
    /// The vCPU thread enters the guest: KVM turns it back at once if the byte
    /// is not zero.
    Enter,
    /// The kick signal reaches the vCPU thread: it ends an entry that is inside
    /// the guest, and does nothing outside it.
    Signal,
    /// The guest is left for a reason of its own, such as an access that the VMM
    /// must answer, a halt or an error.
    Leave,
}

/// Where a vCPU is: its `immediate_exit` byte, and whether it is inside the
/// guest.
pub struct Whereabouts {
    pub byte: u8,
    pub inside: bool,
}

/// Where a vCPU is after one step.
pub open spec fn moved(at: Whereabouts, step: Step) -> Whereabouts {
    match step {
        Step::Access(access) => Whereabouts { byte: after(at.byte, access), inside: at.inside },
        Step::Enter => Whereabouts { byte: at.byte, inside: at.inside || at.byte == 0 },
        Step::Signal => Whereabouts { byte: at.byte, inside: false },
        Step::Leave => Whereabouts { byte: at.byte, inside: false },
    }
}

/// Where a vCPU is after all of `steps`.
pub open spec fn moved_through(at: Whereabouts, steps: Seq<Step>) -> Whereabouts
    decreases steps.len(),
{
    if steps.len() == 0 {
        at
    } else {
        moved(moved_through(at, steps.drop_last()), steps.last())
    }
}

/// No step acknowledges a kick.
pub open spec fn unacknowledged(steps: Seq<Step>) -> bool {
    forall|i: int|
        0 <= i < steps.len() ==> !((#[trigger] steps[i]) matches Step::Access(access) && access
            is AcknowledgeKick)
}

/// Until it is acknowledged a kick stays pending, and a vCPU that is outside the
/// guest then does not get in.
proof fn a_pending_kick_keeps_the_vcpu_out(at: Whereabouts, steps: Seq<Step>)
    requires
        at.byte & KICK != 0,
        unacknowledged(steps),
    ensures
        moved_through(at, steps).byte & KICK != 0,
        !at.inside ==> !moved_through(at, steps).inside,
    decreases steps.len(),
{
    if steps.len() > 0 {
        let earlier = steps.drop_last();
        assert(unacknowledged(earlier)) by {
            assert forall|i: int| 0 <= i < earlier.len() implies !((
            #[trigger] earlier[i]) matches Step::Access(access) && access is AcknowledgeKick) by {
                assert(earlier[i] == steps[i]);
            }
        }
        a_pending_kick_keeps_the_vcpu_out(at, earlier);
        let before = moved_through(at, earlier);
        let byte = before.byte;
        assert(byte != 0) by {
            assert(byte & 1u8 != 0 ==> byte != 0) by (bit_vector);
        }
        assert(steps.last() == steps[steps.len() - 1]);
        if let Step::Access(access) = steps.last() {
            one_access(byte, access);
        }
    }
}

/// No kick is lost. A kick sets the flag and then signals, and whatever happens
/// before, between and after, the vCPU is outside the guest from then on until
/// the kick is acknowledged: the flag turns back a vCPU that is about to enter,
/// and the signal ends an entry that the flag came too late for.
pub proof fn a_kick_is_not_lost(at: Whereabouts, between: Seq<Step>, later: Seq<Step>)
    requires
        unacknowledged(between),
        unacknowledged(later),
    ensures
        ({
            let flagged = moved(at, Step::Access(Access::Kick));
            let signalled = moved(moved_through(flagged, between), Step::Signal);
            !moved_through(signalled, later).inside
        }),
{
    let flagged = moved(at, Step::Access(Access::Kick));
    one_access(at.byte, Access::Kick);
    a_pending_kick_keeps_the_vcpu_out(flagged, between);
    let signalled = moved(moved_through(flagged, between), Step::Signal);
    a_pending_kick_keeps_the_vcpu_out(signalled, later);
}

/// What a kicking thread needs to reach a live vCPU: a handle `F` on its
/// `immediate_exit` byte, and the thread that runs it.
#[derive(Debug)]
pub struct KickTarget<F> {
    pub flag: F,
    pub thread: u64,
}

/// The rendezvous between a vCPU and the handles that can kick it.
///
/// The target is `None` once the vCPU is dropped, which is what makes kicking a
/// dropped vCPU a no-op rather than a use-after-free or a signal to a thread id
/// the host has since reused. Callers hold a lock across the whole kick, so a
/// vCPU being dropped cannot unmap `kvm_run` in the middle of it.
#[derive(Debug)]
pub struct KickState<F> {
    target: Option<KickTarget<F>>,
}

impl<F> KickState<F> {
    /// Whom a kick reaches.
    pub closed spec fn target(self) -> Option<KickTarget<F>> {
        self.target
    }

    /// Arms kicks for the calling thread's vCPU.
    ///
    /// Must run on the thread that will call `KVM_RUN`: it records that thread
    /// as the signal's destination and unblocks the signal there. The handler
    /// is installed before the signal is unblocked, so no kick can meet the
    /// signal's default action.
    pub fn register<I, U, T>(flag: F, install: I, unblock: U, current_thread: T) -> (result: Result<
        Self,
        HostError,
    >) where
        I: FnOnce() -> Result<(), HostError>,
        U: FnOnce() -> Result<(), HostError>,
        T: FnOnce() -> u64,

        requires
            call_requires(install, ()),
            call_ensures(install, (), Ok(())) ==> call_requires(unblock, ()),
            call_ensures(install, (), Ok(())) && call_ensures(unblock, (), Ok(()))
                ==> call_requires(current_thread, ()),
        ensures
            match result {
                Ok(state) => {
                    &&& call_ensures(install, (), Ok(()))
                    &&& call_ensures(unblock, (), Ok(()))
                    &&& state.target() matches Some(target) && target.flag == flag && call_ensures(
                        current_thread,
                        (),
                        target.thread,
                    )
                },
                Err(source) => {
                    ||| call_ensures(install, (), Err(source))
                    ||| call_ensures(install, (), Ok(())) && call_ensures(
                        unblock,
                        (),
                        Err(source),
                    )
                },
            },
    {
        let installed = install();
        match installed {
            Ok(()) => {
                assert(installed->Ok_0 == ());
            },
            Err(source) => {
                return Err(source);
            },
        }
        let unblocked = unblock();
        match unblocked {
            Ok(()) => {
                assert(unblocked->Ok_0 == ());
            },
            Err(source) => {
                return Err(source);
            },
        }
        let thread: u64 = current_thread();
        Ok(KickState { target: Some(KickTarget { flag, thread }) })
    }

    /// Stops kicks from reaching this vCPU, before its `kvm_run` is unmapped.
    pub fn deregister(&mut self)
        ensures
            final(self).target() is None,
    {
        self.target = None;
    }

    /// Forces the vCPU out of the guest with `signal`, from any thread.
    ///
    /// `request` asks for an exit through the target's flag, and `kill` sends
    /// `signal` to the target's thread. Order matters: a vCPU that is about to
    /// enter the guest must see the flag, and one already inside it must get
    /// the signal. So `kill` may rely on `request` having run, and neither runs
    /// once the vCPU is dropped.
    pub fn kick_with<R, K>(&self, signal: i32, request: R, kill: K) -> (result: Result<
        (),
        HostError,
    >) where R: FnOnce(&F, u8), K: FnOnce(u64, i32) -> i32
        requires
            self.target() matches Some(target) ==> {
                &&& call_requires(request, (&target.flag, KICK))
                &&& call_ensures(request, (&target.flag, KICK), ()) ==> call_requires(
                    kill,
                    (target.thread, signal),
                )
            },
        ensures
            match self.target() {
                None => result is Ok,
                Some(target) => {
                    &&& call_ensures(request, (&target.flag, KICK), ())
                    &&& exists|failure: i32|
                        {
                            &&& #[trigger] call_ensures(kill, (target.thread, signal), failure)
                            &&& host_outcome(result) == returned_errno(failure)
                            &&& failure == 0 ==> result is Ok
                            &&& failure != 0 ==> (result matches Err(HostError::Os { errno })
                                && errno == failure)
                        }
                },
            },
    {
        match &self.target {
            None => Ok(()),
            Some(target) => {
                request(&target.flag, KICK);
                let failure: i32 = kill(target.thread, signal);
                if failure != 0 {
                    Err(HostError::from_raw_os_error(failure))
                } else {
                    Ok(())
                }
            },
        }
    }

    /// Forces the vCPU out of the guest with the kick signal, from any thread.
    ///
    /// `None` where this host has no kick signal, in which case nothing was
    /// done. Kicking a dropped vCPU does not ask for the signal.
    pub fn kick<R, K>(&self, request: R, kill: K) -> (result: Option<Result<(), HostError>>) where
        R: FnOnce(&F, u8),
        K: FnOnce(u64, i32) -> i32,

        requires
            self.target() matches Some(target) ==> forall|signal: i32| #[trigger]
                asked_kick_signal(Some(signal)) ==> {
                    &&& call_requires(request, (&target.flag, KICK))
                    &&& call_ensures(request, (&target.flag, KICK), ()) ==> call_requires(
                        kill,
                        (target.thread, signal),
                    )
                },
        ensures
            match self.target() {
                None => result matches Some(kicked) && kicked is Ok,
                Some(target) => match result {
                    None => asked_kick_signal(None),
                    Some(kicked) => exists|signal: i32, failure: i32|
                        {
                            &&& #[trigger] asked_kick_signal(Some(signal))
                            &&& call_ensures(request, (&target.flag, KICK), ())
                            &&& #[trigger] call_ensures(kill, (target.thread, signal), failure)
                            &&& host_outcome(kicked) == returned_errno(failure)
                            &&& failure == 0 ==> kicked is Ok
                            &&& failure != 0 ==> (kicked matches Err(HostError::Os { errno })
                                && errno == failure)
                        },
                },
            },
    {
        if self.target.is_none() {
            return Some(Ok(()));
        }
        match kick_signal() {
            None => None,
            Some(signal) => Some(self.kick_with(signal, request, kill)),
        }
    }
}

/// Asks `vmm_sys_util::signal::SIGRTMIN()`, the lowest real-time signal.
///
/// Nothing is claimed of the number, nor that every call gives the same one: the
/// C library of the machine fixes it when the process starts.
#[verifier::external_body]
pub fn lowest_real_time_signal() -> (lowest: i32) {
    vmm_sys_util::signal::SIGRTMIN()
}

/// The signal above the lowest real-time one, where that is a number at all.
pub open spec fn above(lowest: i32) -> Option<i32> {
    if lowest + KICK_SIGNAL_OFFSET <= i32::MAX {
        Some((lowest + KICK_SIGNAL_OFFSET) as i32)
    } else {
        None
    }
}

/// The signal that interrupts `KVM_RUN` on a host whose lowest real-time signal
/// is `lowest`.
pub fn kick_signal_above(lowest: i32) -> (signal: Option<i32>)
    ensures
        signal == above(lowest),
        lowest < i32::MAX ==> (signal matches Some(number) && number == lowest + 1),
        lowest == i32::MAX ==> signal is None,
{
    lowest.checked_add(KICK_SIGNAL_OFFSET)
}

/// `signal` is the one above what [`lowest_real_time_signal`] gave when asked.
pub open spec fn asked_kick_signal(signal: Option<i32>) -> bool {
    exists|lowest: i32|
        {
            &&& #[trigger] call_ensures(lowest_real_time_signal, (), lowest)
            &&& signal == above(lowest)
        }
}

/// The signal that interrupts `KVM_RUN`, one above this host's lowest real-time
/// signal.
pub fn kick_signal() -> (signal: Option<i32>)
    ensures
        asked_kick_signal(signal),
        exists|lowest: i32|
            {
                &&& #[trigger] call_ensures(lowest_real_time_signal, (), lowest)
                &&& lowest < i32::MAX ==> (signal matches Some(number) && number == lowest + 1)
                &&& lowest == i32::MAX ==> signal is None
            },
{
    kick_signal_above(lowest_real_time_signal())
}

/// Installs the kick handler for `signal` once per process.
///
/// `installed` is what the process has recorded of an earlier installation, and
/// `register` installs the handler for `signal`. The handler does nothing:
/// interrupting the `KVM_RUN` ioctl is the whole point, and the flag that says
/// why has already been set by the kicker.
pub fn install_kick_handler_for<R: FnOnce(i32) -> Result<(), i32>>(
    installed: &mut Option<Result<(), i32>>,
    signal: i32,
    register: R,
) -> (result: Result<(), HostError>)
    requires
        *old(installed) is None ==> call_requires(register, (signal,)),
    ensures
        *final(installed) matches Some(recorded) && host_outcome(result) == reported_errno(
            recorded,
        ),
        match *old(installed) {
            Some(recorded) => *final(installed) == Some(recorded),
            None => call_ensures(register, (signal,), (*final(installed))->0),
        },
        *final(installed) matches Some(Ok(_)) ==> result is Ok,
        *final(installed) matches Some(Err(errno)) ==> (result matches Err(
            HostError::Os { errno: kept },
        ) && kept == errno),
{
    let recorded: Result<(), i32> = match *installed {
        Some(recorded) => recorded,
        None => register(signal),
    };
    *installed = Some(recorded);
    host_answer(recorded)
}

/// Installs the kick handler for the kick signal once per process.
///
/// `None` where this host has no kick signal, in which case nothing was done. A
/// handler that is installed already does not ask for the signal.
pub fn install_kick_handler<R: FnOnce(i32) -> Result<(), i32>>(
    installed: &mut Option<Result<(), i32>>,
    register: R,
) -> (result: Option<Result<(), HostError>>)
    requires
        *old(installed) is None ==> forall|signal: i32| #[trigger]
            asked_kick_signal(Some(signal)) ==> call_requires(register, (signal,)),
    ensures
        match result {
            None => {
                &&& *old(installed) is None
                &&& asked_kick_signal(None)
                &&& *final(installed) is None
            },
            Some(outcome) => {
                &&& *final(installed) matches Some(recorded) && host_outcome(outcome)
                    == reported_errno(recorded)
                &&& match *old(installed) {
                    Some(recorded) => *final(installed) == Some(recorded),
                    None => exists|signal: i32|
                        {
                            &&& #[trigger] asked_kick_signal(Some(signal))
                            &&& call_ensures(register, (signal,), (*final(installed))->0)
                        },
                }
            },
        },
        match (result, *final(installed)) {
            (Some(outcome), Some(Ok(_))) => outcome is Ok,
            (Some(outcome), Some(Err(errno))) => outcome matches Err(HostError::Os { errno: kept })
                && kept == errno,
            (Some(_), None) => false,
            (None, recorded) => recorded is None,
        },
{
    match *installed {
        Some(recorded) => Some(host_answer(recorded)),
        None => match kick_signal() {
            None => None,
            Some(signal) => Some(install_kick_handler_for(installed, signal, register)),
        },
    }
}

/// Unblocking `signal` makes only calls that may be made.
pub open spec fn may_unblock<S, E, A, U, L>(
    signal: i32,
    empty_set: E,
    add_signal: A,
    unblock: U,
    last_errno: L,
) -> bool where
    E: FnOnce() -> (i32, S),
    A: FnOnce(S, i32) -> (i32, S),
    U: FnOnce(S) -> i32,
    L: FnOnce() -> i32,
 {
    &&& call_requires(empty_set, ())
    &&& forall|made: (i32, S)| #[trigger]
        call_ensures(empty_set, (), made) ==> if made.0 != 0 {
            call_requires(last_errno, ())
        } else {
            call_requires(add_signal, (made.1, signal))
        }
    &&& forall|made: (i32, S), added: (i32, S)|
        #![trigger call_ensures(empty_set, (), made), call_ensures(add_signal, (made.1, signal), added)]
        call_ensures(empty_set, (), made) && made.0 == 0 && call_ensures(
            add_signal,
            (made.1, signal),
            added,
        ) ==> if added.0 != 0 {
            call_requires(last_errno, ())
        } else {
            call_requires(unblock, (added.1,))
        }
}

/// What unblocking `signal` gives, whichever of its steps fails.
pub open spec fn unblocked<S, E, A, U, L>(
    signal: i32,
    empty_set: E,
    add_signal: A,
    unblock: U,
    last_errno: L,
    result: Result<(), HostError>,
) -> bool where
    E: FnOnce() -> (i32, S),
    A: FnOnce(S, i32) -> (i32, S),
    U: FnOnce(S) -> i32,
    L: FnOnce() -> i32,
 {
    exists|made: (i32, S)|
        {
            &&& #[trigger] call_ensures(empty_set, (), made)
            &&& if made.0 != 0 {
                result matches Err(HostError::Os { errno }) && call_ensures(
                    last_errno,
                    (),
                    errno,
                )
            } else {
                exists|added: (i32, S)|
                    {
                        &&& #[trigger] call_ensures(add_signal, (made.1, signal), added)
                        &&& if added.0 != 0 {
                            result matches Err(HostError::Os { errno }) && call_ensures(
                                last_errno,
                                (),
                                errno,
                            )
                        } else {
                            exists|failure: i32|
                                {
                                    &&& #[trigger] call_ensures(unblock, (added.1,), failure)
                                    &&& host_outcome(result) == returned_errno(failure)
                                }
                        }
                    }
            }
        }
}

/// Unblocks `signal` on the calling thread.
///
/// Signal masks are inherited, and the backend runs inside host processes that
/// may block real-time signals. A blocked kick never interrupts `KVM_RUN`, so
/// every stop would hang.
///
/// `empty_set` makes an empty signal set and `add_signal` adds `signal` to it; a
/// non-zero status of either means that errno, which `last_errno` reads, says
/// why.
/// `unblock` unblocks the set and returns the error number itself.
pub fn unblock_signal<S, E, A, U, L>(
    signal: i32,
    empty_set: E,
    add_signal: A,
    unblock: U,
    last_errno: L,
) -> (result: Result<(), HostError>) where
    E: FnOnce() -> (i32, S),
    A: FnOnce(S, i32) -> (i32, S),
    U: FnOnce(S) -> i32,
    L: FnOnce() -> i32,

    requires
        may_unblock(signal, empty_set, add_signal, unblock, last_errno),
    ensures
        unblocked(signal, empty_set, add_signal, unblock, last_errno, result),
        match result {
            Ok(_) => exists|made: (i32, S), added: (i32, S)|
                {
                    &&& #[trigger] call_ensures(empty_set, (), made)
                    &&& #[trigger] call_ensures(add_signal, (made.1, signal), added)
                    &&& made.0 == 0
                    &&& added.0 == 0
                    &&& call_ensures(unblock, (added.1,), 0)
                },
            Err(error) => error matches HostError::Os { errno } && exists|made: (i32, S)|
                {
                    &&& #[trigger] call_ensures(empty_set, (), made)
                    &&& {
                        ||| made.0 != 0 && call_ensures(last_errno, (), errno)
                        ||| made.0 == 0 && exists|added: (i32, S)|
                            {
                                &&& #[trigger] call_ensures(add_signal, (made.1, signal), added)
                                &&& {
                                    ||| added.0 != 0 && call_ensures(last_errno, (), errno)
                                    ||| added.0 == 0 && errno != 0 && call_ensures(
                                        unblock,
                                        (added.1,),
                                        errno,
                                    )
                                }
                            }
                    }
                },
        },
{
    let (status, set) = empty_set();
    assert(call_ensures(empty_set, (), (status, set)));
    if status != 0 {
        return Err(HostError::from_raw_os_error(last_errno()));
    }
    let ghost made = set;
    let (status, set) = add_signal(set, signal);
    assert(call_ensures(add_signal, (made, signal), (status, set)));
    if status != 0 {
        return Err(HostError::from_raw_os_error(last_errno()));
    }
    let failure: i32 = unblock(set);
    if failure != 0 {
        return Err(HostError::from_raw_os_error(failure));
    }
    Ok(())
}

/// Unblocks the kick signal on the calling thread. See [`unblock_signal`].
///
/// `None` where this host has no kick signal, in which case nothing was done.
pub fn unblock_kick_signal<S, E, A, U, L>(
    empty_set: E,
    add_signal: A,
    unblock: U,
    last_errno: L,
) -> (result: Option<Result<(), HostError>>) where
    E: FnOnce() -> (i32, S),
    A: FnOnce(S, i32) -> (i32, S),
    U: FnOnce(S) -> i32,
    L: FnOnce() -> i32,

    requires
        forall|signal: i32| #[trigger]
            asked_kick_signal(Some(signal)) ==> may_unblock(
                signal,
                empty_set,
                add_signal,
                unblock,
                last_errno,
            ),
    ensures
        match result {
            None => asked_kick_signal(None),
            Some(outcome) => exists|signal: i32|
                {
                    &&& #[trigger] asked_kick_signal(Some(signal))
                    &&& unblocked(signal, empty_set, add_signal, unblock, last_errno, outcome)
                },
        },
{
    match kick_signal() {
        None => None,
        Some(signal) => Some(unblock_signal(signal, empty_set, add_signal, unblock, last_errno)),
    }
}

/// A kick and a completion ask through bits of their own: each makes the byte
/// non-zero, which is what KVM tests, and neither is part of the other.
pub proof fn kicks_and_completions_have_bits_of_their_own()
    ensures
        KICK == 0b01,
        COMPLETION == 0b10,
        KICK & COMPLETION == 0,
{
    assert(0b01u8 & 0b10u8 == 0) by (bit_vector);
}

/// The kick signal is never the lowest real-time signal, and is a signal at all
/// wherever a number above that one exists: it is the very next number.
pub proof fn the_kick_signal_is_next_to_the_lowest(lowest: i32)
    ensures
        above(lowest) matches Some(signal) ==> signal == lowest + 1,
        above(lowest) is None <==> lowest == i32::MAX,
        forall|signal: Option<i32>| #[trigger]
            asked_kick_signal(signal) ==> exists|least: i32|
                {
                    &&& #[trigger] call_ensures(lowest_real_time_signal, (), least)
                    &&& signal matches Some(number) ==> number == least + 1
                    &&& signal is None ==> least == i32::MAX
                },
{
}

/// An access to the byte is exactly one bit set or cleared: setting a request
/// that is set, and withdrawing one that is not, changes nothing.
pub proof fn an_access_is_one_bit(byte: u8)
    ensures
        after(byte, Access::Kick) == byte | 0b01u8,
        after(byte, Access::AcknowledgeKick) == byte & !0b01u8,
        after(byte, Access::BeginCompletion) == byte | 0b10u8,
        after(byte, Access::EndCompletion) == byte & !0b10u8,
{
}

/// Unblocking succeeds only by making a set, adding the signal itself to that
/// set and unblocking the set it was added to, each without a failure. Otherwise
/// the failure is that of the first step that failed, under the errno that this
/// step gave.
pub proof fn unblocking_fails_with_its_first_failure<S, E, A, U, L>(
    signal: i32,
    empty_set: E,
    add_signal: A,
    unblock: U,
    last_errno: L,
    result: Result<(), HostError>,
) where
    E: FnOnce() -> (i32, S),
    A: FnOnce(S, i32) -> (i32, S),
    U: FnOnce(S) -> i32,
    L: FnOnce() -> i32,

    requires
        unblocked(signal, empty_set, add_signal, unblock, last_errno, result),
    ensures
        result is Ok ==> exists|made: (i32, S), added: (i32, S)|
            {
                &&& #[trigger] call_ensures(empty_set, (), made)
                &&& #[trigger] call_ensures(add_signal, (made.1, signal), added)
                &&& made.0 == 0
                &&& added.0 == 0
                &&& call_ensures(unblock, (added.1,), 0)
            },
        result matches Err(error) ==> (error matches HostError::Os { errno } && exists|
            made: (i32, S),
        |
            {
                &&& #[trigger] call_ensures(empty_set, (), made)
                &&& {
                    ||| made.0 != 0 && call_ensures(last_errno, (), errno)
                    ||| made.0 == 0 && exists|added: (i32, S)|
                        {
                            &&& #[trigger] call_ensures(add_signal, (made.1, signal), added)
                            &&& {
                                ||| added.0 != 0 && call_ensures(last_errno, (), errno)
                                ||| added.0 == 0 && errno != 0 && call_ensures(
                                    unblock,
                                    (added.1,),
                                    errno,
                                )
                            }
                        }
                }
            }),
{
}

} // verus!
