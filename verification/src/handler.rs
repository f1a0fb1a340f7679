use vstd::prelude::*;

use crate::counter::PapiCounter;
use crate::error::PapiError;
use crate::event_set::EventSet;
use crate::lock::{start_step, CounterLock};
use crate::papi::Papi;
use crate::status::PAPI_OK;

verus! {

/// The option code that detaches an event set from the thread it was
/// attached to.
pub const PAPI_DETACH: i32 = 1;

/// The option code that attaches an event set to another thread.
pub const PAPI_ATTACH: i32 = 19;

/// An attach or detach request as it is handed to PAPI: the option code,
/// the event set it concerns, and the thread.
#[derive(Debug, Clone, Copy, PartialEq, Eq, Structural)]
pub struct SetOption {
    pub option: i32,
    pub eventset: i32,
    pub tid: u64,
}

/// Counts one event set, in the calling thread or in the thread it was
/// attached to; known by the handle of that event set and the instance
/// number of the PAPI instance it belongs to.
pub struct PapiHandler {
    event_set: i32,
    papi: u64,
}

impl View for PapiHandler {
    type V = i32;

    closed spec fn view(&self) -> i32 {
        self.event_set
    }
}

impl PapiHandler {
    /// The instance number of the PAPI instance this handler belongs to.
    pub closed spec fn owner(self) -> u64 {
        self.papi
    }

    /// A handler for `event_set` on `papi`.
    pub fn new(event_set: &EventSet, papi: &Papi) -> (h: PapiHandler)
        ensures
            h@ == event_set@,
            h.owner() == papi.id(),
    {
        PapiHandler { event_set: event_set.raw_event_set(), papi: papi.instance() }
    }

    /// The handle of the event set this handler counts.
    pub fn event_set(&self) -> (h: i32)
        ensures
            h == self@,
    {
        self.event_set
    }

    /// The instance number of the PAPI instance this handler belongs to.
    pub fn papi_instance(&self) -> (n: u64)
        ensures
            n == self.owner(),
    {
        self.papi
    }

    /// What is handed to PAPI to detach this handler's event set as the
    /// handler is dropped.
    pub fn detach_option(&self) -> (o: SetOption)
        ensures
            o == (SetOption { option: PAPI_DETACH, eventset: self@, tid: 0 }),
    {
        SetOption { option: PAPI_DETACH, eventset: self.event_set, tid: 0 }
    }

    /// Settles starting the counters once the counter lock of `papi`, the
    /// instance this handler belongs to, was just taken (it is `Starting`):
    /// `start_status` is what PAPI returned when the event set was started.
    /// On success the new counter keeps the lock; on failure the lock is
    /// given back.
    pub fn start_count(&self, papi: &mut Papi, start_status: i32) -> (r: Result<
        PapiCounter,
        PapiError,
    >)
        requires
            old(papi)@ is Starting,
            self.owner() == old(papi).id(),
        ensures
            final(papi)@ == start_step(old(papi)@, start_status),
            final(papi).id() == old(papi).id(),
            r is Ok <==> start_status == PAPI_OK,
            r matches Ok(c) ==> c@ == self@ && c.owner() == self.owner(),
            r matches Err(e) ==> e == PapiError(start_status),
    {
        papi.settle_start(start_status);
        if start_status != PAPI_OK {
            Err(PapiError::from(start_status))
        } else {
            Ok(PapiCounter::new(self.event_set, self.papi))
        }
    }
}

} // verus!
