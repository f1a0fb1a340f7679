use vstd::prelude::*;

use crate::status::PAPI_OK;

verus! {

/// The state of the lock that lets one counter at a time run on a PAPI
/// instance. Whoever takes the lock holds it first while the counters are
/// being started, then, if the start succeeded, for as long as the new
/// counter lives. Each holding state records whether the thread was already
/// unwinding when the lock was taken: a counter dropped during a later
/// unwind (its failed stop panics, or the thread was unwinding anyway)
/// leaves the lock poisoned for good.
#[derive(Debug, Clone, Copy, PartialEq, Eq, Structural)]
pub enum CounterLock {
    /// No counter runs and nobody is starting one.
    Free,
    /// The lock was just taken; the counters are being started.
    Starting { locked_while_panicking: bool },
    /// A counter runs and holds the lock.
    Held { locked_while_panicking: bool },
    /// A counter was dropped while its thread unwound.
    Poisoned,
}

/// What an attempt to take the counter lock found.
#[derive(Debug, Clone, Copy, PartialEq, Eq, Structural)]
pub enum LockAttempt {
    /// The lock was free and is now held by the caller.
    Acquired,
    /// A counter runs, or is being started, and holds the lock.
    WouldBlock,
    /// The lock was poisoned.
    Poisoned,
}

/// One attempt to take the lock, made while the thread is unwinding or not
/// (`panicking`): the lock afterwards, and what was found.
pub open spec fn try_lock_step(lock: CounterLock, panicking: bool) -> (CounterLock, LockAttempt) {
    match lock {
        CounterLock::Free => (
            CounterLock::Starting { locked_while_panicking: panicking },
            LockAttempt::Acquired,
        ),
        CounterLock::Starting { .. } => (lock, LockAttempt::WouldBlock),
        CounterLock::Held { .. } => (lock, LockAttempt::WouldBlock),
        CounterLock::Poisoned => (lock, LockAttempt::Poisoned),
    }
}

/// The lock after the counters were started under it (`lock` is the
/// `Starting` state): kept by the new counter when the start succeeded,
/// given back otherwise.
pub open spec fn start_step(lock: CounterLock, start_status: i32) -> CounterLock {
    if start_status == PAPI_OK {
        CounterLock::Held { locked_while_panicking: lock->Starting_locked_while_panicking }
    } else {
        CounterLock::Free
    }
}

/// The lock after the running counter is stopped and dropped (`lock` is
/// the `Held` state). The lock is released as a mutex guard is: it is
/// poisoned when the thread unwinds at the release but did not when the
/// lock was taken. A failed stop makes the drop panic, so the release then
/// happens while unwinding.
pub open spec fn stop_step(lock: CounterLock, stop_status: i32, panicking: bool) -> CounterLock {
    if !lock->Held_locked_while_panicking && (stop_status != PAPI_OK || panicking) {
        CounterLock::Poisoned
    } else {
        CounterLock::Free
    }
}

/// Only one counter of a PAPI instance is started at a time: the counters
/// may be started only in the `Starting` state, which only a successful
/// attempt on a free lock enters; the start leaves that state whatever
/// its outcome, and while a counter runs (`Held`) or is being started,
/// every attempt is refused.
pub proof fn law_one_counter_at_a_time(
    lock: CounterLock,
    panicking: bool,
    start_status: i32,
)
    ensures
        !(lock is Starting) ==> ((try_lock_step(lock, panicking).0 is Starting) <==> lock
            == CounterLock::Free),
        (try_lock_step(lock, panicking).1 == LockAttempt::Acquired) <==> lock == CounterLock::Free,
        lock is Starting ==> !(start_step(lock, start_status) is Starting),
        lock is Held || lock is Starting ==> try_lock_step(lock, panicking) == (
            lock,
            LockAttempt::WouldBlock,
        ),
{
}

/// A start that PAPI refused gives the lock back, so the next attempt
/// takes it.
pub proof fn law_failed_start_releases(lock: CounterLock, start_status: i32, panicking: bool)
    requires
        lock is Starting,
        start_status != PAPI_OK,
    ensures
        start_step(lock, start_status) == CounterLock::Free,
        try_lock_step(start_step(lock, start_status), panicking).1 == LockAttempt::Acquired,
{
}

/// A counter that is stopped cleanly, outside any unwinding, gives the
/// lock back, so counting can start again: taking the free lock, starting,
/// and stopping cleanly leads back to a free lock.
pub proof fn law_clean_stop_releases(stop_status: i32)
    requires
        stop_status == PAPI_OK,
    ensures
        ({
            let taken = try_lock_step(CounterLock::Free, false).0;
            let running = start_step(taken, PAPI_OK);
            &&& running == CounterLock::Held { locked_while_panicking: false }
            &&& stop_step(running, stop_status, false) == CounterLock::Free
            &&& try_lock_step(stop_step(running, stop_status, false), false).1
                == LockAttempt::Acquired
        }),
{
}

/// A counter whose lock was taken outside unwinding and that is dropped
/// while its stop fails or its thread unwinds poisons the lock, and a
/// poisoned lock stays poisoned: every later attempt reports it.
pub proof fn law_poison_is_permanent(stop_status: i32, panicking: bool, later: bool)
    requires
        stop_status != PAPI_OK || panicking,
    ensures
        stop_step(CounterLock::Held { locked_while_panicking: false }, stop_status, panicking)
            == CounterLock::Poisoned,
        try_lock_step(CounterLock::Poisoned, later) == (
            CounterLock::Poisoned,
            LockAttempt::Poisoned,
        ),
{
}

/// A counter started and dropped within one unwind leaves the lock
/// usable, as the lock was taken while unwinding already.
pub proof fn law_same_unwind_does_not_poison(stop_status: i32, panicking: bool)
    ensures
        stop_step(CounterLock::Held { locked_while_panicking: true }, stop_status, panicking)
            == CounterLock::Free,
{
}

} // verus!
