use vstd::prelude::*;

use crate::error::PapiError;
use crate::status::PAPI_OK;

verus! {

/// A PAPI event set, known by the handle PAPI gave it.
pub struct EventSet {
    raw_event_set: i32,
}

impl View for EventSet {
    type V = i32;

    closed spec fn view(&self) -> i32 {
        self.raw_event_set
    }
}

impl EventSet {
    /// Settles the creation of an event set: `status` is what PAPI
    /// returned, `handle` the handle it wrote back.
    pub fn new(status: i32, handle: i32) -> (r: Result<EventSet, PapiError>)
        ensures
            r is Ok <==> status == PAPI_OK,
            r matches Ok(s) ==> s@ == handle,
            r matches Err(e) ==> e == PapiError(status),
    {
        if status != PAPI_OK {
            Err(PapiError::from(status))
        } else {
            Ok(EventSet { raw_event_set: handle })
        }
    }

    /// The handle PAPI gave this event set.
    pub fn raw_event_set(&self) -> (h: i32)
        ensures
            h == self@,
    {
        self.raw_event_set
    }

    /// The number of events in a set, as a buffer length, from the count
    /// that PAPI reported for it (a negative count, which is an error
    /// code, wraps around as an `as` conversion does).
    pub fn size(num_events: i32) -> (n: usize)
        ensures
            n == num_events as usize,
    {
        num_events as usize
    }
}

} // verus!
