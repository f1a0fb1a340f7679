use vstd::prelude::*;

use crate::error::PapiError;
use crate::status::PAPI_OK;

verus! {

/// A running counter over one event set, known by the handle of that set
/// and the instance number of the PAPI instance it was started on, whose
/// counter lock it holds.
pub struct PapiCounter {
    event_set: i32,
    papi: u64,
}

impl View for PapiCounter {
    type V = i32;

    closed spec fn view(&self) -> i32 {
        self.event_set
    }
}

impl PapiCounter {
    /// The instance number of the PAPI instance this counter runs on.
    pub closed spec fn owner(self) -> u64 {
        self.papi
    }

    pub(crate) fn new(event_set: i32, papi: u64) -> (c: PapiCounter)
        ensures
            c@ == event_set,
            c.owner() == papi,
    {
        PapiCounter { event_set, papi }
    }

    /// The instance number of the PAPI instance this counter runs on.
    pub fn papi_instance(&self) -> (n: u64)
        ensures
            n == self.owner(),
    {
        self.papi
    }

    /// The handle of the event set this counter counts.
    pub fn event_set(&self) -> (h: i32)
        ensures
            h == self@,
    {
        self.event_set
    }

    /// A buffer of `size` counter values, all zero, for PAPI to read or
    /// accumulate the counts of an event set of that size into.
    pub fn values_buffer(size: usize) -> (v: Vec<i64>)
        ensures
            v@ == Seq::new(size as nat, |i: int| 0i64),
    {
        let mut v: Vec<i64> = Vec::new();
        let mut i: usize = 0;
        while i < size
            invariant
                i <= size,
                v@ == Seq::new(i as nat, |j: int| 0i64),
            decreases size - i,
        {
            v.push(0);
            i = i + 1;
            assert(v@ =~= Seq::new(i as nat, |j: int| 0i64));
        }
        v
    }

    /// Settles reading the counts: `status` is what PAPI returned, `values`
    /// the buffer it filled. The counts are handed out whole on success.
    pub fn read_events(&self, status: i32, values: Vec<i64>) -> (r: Result<Vec<i64>, PapiError>)
        ensures
            r is Ok <==> status == PAPI_OK,
            r matches Ok(v) ==> v@ == values@,
            r matches Err(e) ==> e == PapiError(status),
    {
        if status != PAPI_OK {
            Err(PapiError::from(status))
        } else {
            Ok(values)
        }
    }
}

} // verus!
