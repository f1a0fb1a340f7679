use vstd::prelude::*;

use crate::counter::PapiCounter;
use crate::error::PapiError;
use crate::event_set::EventSet;
use crate::handler::{PapiHandler, SetOption, PAPI_ATTACH};
use crate::lock::{start_step, stop_step, try_lock_step, CounterLock, LockAttempt};
use crate::status::{PAPI_OK, PAPI_VER_CURRENT};

verus! {

/// An initialised PAPI library, with the lock that lets one counter at a
/// time run on it. Its handlers and counters carry its instance number, so
/// that each is used with the instance it belongs to.
pub struct Papi {
    instance: u64,
    single_counter_lock: CounterLock,
}

impl View for Papi {
    type V = CounterLock;

    closed spec fn view(&self) -> CounterLock {
        self.single_counter_lock
    }
}

impl Papi {
    /// The instance number of this PAPI instance.
    pub closed spec fn id(self) -> u64 {
        self.instance
    }

    /// Settles library initialisation: `init_status` is what PAPI returned
    /// when asked to initialise for `PAPI_VER_CURRENT`, and `instance` the
    /// number that the new instance is to be known by. It succeeds only
    /// when PAPI reported that very version back.
    pub fn new(init_status: i32, instance: u64) -> (r: Result<Papi, PapiError>)
        ensures
            r is Ok <==> init_status == PAPI_VER_CURRENT,
            r matches Ok(p) ==> p@ == CounterLock::Free && p.id() == instance,
            r matches Err(e) ==> e == PapiError(init_status),
    {
        if init_status != PAPI_VER_CURRENT {
            Err(PapiError::from(init_status))
        } else {
            Ok(Papi { instance, single_counter_lock: CounterLock::Free })
        }
    }

    /// The instance number of this PAPI instance.
    pub fn instance(&self) -> (n: u64)
        ensures
            n == self.id(),
    {
        self.instance
    }

    /// The state of the counter lock.
    pub fn counter_lock(&self) -> (l: CounterLock)
        ensures
            l == self@,
    {
        self.single_counter_lock
    }

    /// A handler that counts `event_set` in the calling thread.
    pub fn local_handler(&self, event_set: &EventSet) -> (h: PapiHandler)
        ensures
            h@ == event_set@,
            h.owner() == self.id(),
    {
        PapiHandler::new(event_set, self)
    }

    /// What is handed to PAPI to attach `event_set` to the thread `tid`.
    pub fn attach_option(&self, event_set: &EventSet, tid: u64) -> (o: SetOption)
        ensures
            o == (SetOption { option: PAPI_ATTACH, eventset: event_set@, tid }),
    {
        SetOption { option: PAPI_ATTACH, eventset: event_set.raw_event_set(), tid }
    }

    /// Settles attaching `event_set` to another thread: `attach_status` is
    /// what PAPI returned for the attach option.
    pub fn attach(&self, event_set: &EventSet, attach_status: i32) -> (r: Result<
        PapiHandler,
        PapiError,
    >)
        ensures
            r is Ok <==> attach_status == PAPI_OK,
            r matches Ok(h) ==> h@ == event_set@ && h.owner() == self.id(),
            r matches Err(e) ==> e == PapiError(attach_status),
    {
        if attach_status != PAPI_OK {
            Err(PapiError::from(attach_status))
        } else {
            Ok(PapiHandler::new(event_set, self))
        }
    }

    /// Tries to take the counter lock without waiting; `panicking` tells
    /// whether the calling thread is unwinding.
    pub fn try_lock_counter(&mut self, panicking: bool) -> (a: LockAttempt)
        ensures
            (final(self)@, a) == try_lock_step(old(self)@, panicking),
            final(self).id() == old(self).id(),
    {
        match self.single_counter_lock {
            CounterLock::Free => {
                self.single_counter_lock = CounterLock::Starting {
                    locked_while_panicking: panicking,
                };
                LockAttempt::Acquired
            },
            CounterLock::Starting { .. } => LockAttempt::WouldBlock,
            CounterLock::Held { .. } => LockAttempt::WouldBlock,
            CounterLock::Poisoned => LockAttempt::Poisoned,
        }
    }

    /// Settles the start of counting under the lock just taken: the new
    /// counter keeps the lock when `start_status` reports success, and the
    /// lock is given back otherwise.
    pub(crate) fn settle_start(&mut self, start_status: i32)
        requires
            old(self)@ is Starting,
        ensures
            final(self)@ == start_step(old(self)@, start_status),
            final(self).id() == old(self).id(),
    {
        match self.single_counter_lock {
            CounterLock::Starting { locked_while_panicking } => {
                if start_status != PAPI_OK {
                    self.single_counter_lock = CounterLock::Free;
                } else {
                    self.single_counter_lock = CounterLock::Held { locked_while_panicking };
                }
            },
            _ => {},
        }
    }

    /// Settles stopping `counter` as it is dropped: `stop_status` is what
    /// PAPI returned when its event set was stopped, `panicking` whether the
    /// thread was unwinding. An error means that the drop panics with it.
    /// The counter must be one of this instance.
    pub fn stop_counter(&mut self, counter: PapiCounter, stop_status: i32, panicking: bool) -> (r:
        Result<(), PapiError>)
        requires
            old(self)@ is Held,
            counter.owner() == old(self).id(),
        ensures
            final(self)@ == stop_step(old(self)@, stop_status, panicking),
            final(self).id() == old(self).id(),
            r is Ok <==> stop_status == PAPI_OK,
            r matches Err(e) ==> e == PapiError(stop_status),
    {
        match self.single_counter_lock {
            CounterLock::Held { locked_while_panicking } => {
                if !locked_while_panicking && (stop_status != PAPI_OK || panicking) {
                    self.single_counter_lock = CounterLock::Poisoned;
                } else {
                    self.single_counter_lock = CounterLock::Free;
                }
            },
            _ => {},
        }
        if stop_status != PAPI_OK {
            Err(PapiError::from(stop_status))
        } else {
            Ok(())
        }
    }
}

} // verus!
