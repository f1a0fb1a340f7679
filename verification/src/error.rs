use vstd::prelude::*;

verus! {

/// An error reported by the PAPI library, carrying the status code it returned.
#[derive(Debug, Clone, Copy, PartialEq, Eq, Structural)]
pub struct PapiError(pub i32);

impl PapiError {
    /// The status code carried by this error.
    pub open spec fn spec_code(self) -> i32 {
        self.0
    }

    /// Returns the status code carried by this error.
    pub fn code(&self) -> (c: i32)
        ensures
            c == self.spec_code(),
    {
        self.0
    }
}

impl From<i32> for PapiError {
    fn from(errno: i32) -> (e: Self) {
        PapiError(errno)
    }
}

impl vstd::std_specs::convert::FromSpecImpl<i32> for PapiError {
    open spec fn obeys_from_spec() -> bool {
        true
    }

    open spec fn from_spec(errno: i32) -> Self {
        PapiError(errno)
    }
}

} // verus!
