use vstd::prelude::*;

use crate::error::PapiError;

verus! {

/// The status code with which PAPI reports success.
pub const PAPI_OK: i32 = 0;

/// The handle value of an event set that has not been created yet.
pub const PAPI_NULL: i32 = -1;

/// The PAPI version this library is written against; library
/// initialisation reports it back when it succeeds.
pub const PAPI_VER_CURRENT: i32 = 84344832;

/// What a PAPI status code means: success for `PAPI_OK`, otherwise an
/// error carrying the code.
pub open spec fn status_result(status: i32) -> Result<(), PapiError> {
    if status == PAPI_OK {
        Ok(())
    } else {
        Err(PapiError(status))
    }
}

/// Interprets a status code returned by a PAPI call.
pub fn check_status(status: i32) -> (r: Result<(), PapiError>)
    ensures
        r == status_result(status),
        r is Ok <==> status == 0,
        status != 0 ==> r == Err::<(), PapiError>(PapiError(status)),
{
    if status != PAPI_OK {
        Err(PapiError::from(status))
    } else {
        Ok(())
    }
}

/// A status code is read as success exactly when it is zero, and every
/// other code is reported unchanged: the error carries the very status that
/// PAPI returned, whatever its value.
pub proof fn law_status_reported_unchanged(status: i32)
    ensures
        status == 0 ==> status_result(status) == Ok::<(), PapiError>(()),
        status != 0 ==> status_result(status) == Err::<(), PapiError>(PapiError(status)),
        status_result(status) matches Err(e) ==> e.0 == status,
{
}

} // verus!
