use vstd::prelude::*;
use vstd::string::StrSliceExecFns;

use crate::error::PapiError;
use crate::status::PAPI_OK;

verus! {

/// A PAPI event, identified by the code PAPI gave its name.
#[derive(Debug, Clone, Copy, PartialEq, Eq, Structural)]
pub struct Event(i32);

impl View for Event {
    type V = i32;

    closed spec fn view(&self) -> i32 {
        self.0
    }
}

/// An event name can be handed to PAPI when it holds no NUL character
/// (it travels as a NUL-terminated C string).
pub open spec fn event_name_ok(name: Seq<char>) -> bool {
    !name.contains('\0')
}

/// Tells whether `name` can be passed to PAPI as a C string, that is,
/// whether it holds no NUL character.
pub fn is_valid_event_name(name: &str) -> (ok: bool)
    ensures
        ok == event_name_ok(name@),
        ok <==> (forall|j: int| 0 <= j < name@.len() ==> name@[j] != '\0'),
{
    let n = name.unicode_len();
    let mut i: usize = 0;
    while i < n
        invariant
            n == name@.len(),
            i <= n,
            forall|j: int| 0 <= j < i ==> name@[j] != '\0',
        decreases n - i,
    {
        if name.get_char(i) == '\0' {
            assert(name@[i as int] == '\0');
            return false;
        }
        i = i + 1;
    }
    assert forall|c: char| name@.contains(c) implies c != '\0' by {
        let j = choose|j: int| 0 <= j < name@.len() && name@[j] == c;
        assert(name@[j] != '\0');
    }
    true
}

impl Event {
    /// The code PAPI uses for this event.
    pub fn get_code(self) -> (c: i32)
        ensures
            c == self@,
    {
        self.0
    }

    /// Settles a name lookup: `status` is what PAPI returned when asked
    /// for the code of a name, and `code` the code it wrote back.
    pub fn from_lookup(status: i32, code: i32) -> (r: Result<Event, PapiError>)
        ensures
            r is Ok <==> status == PAPI_OK,
            r matches Ok(e) ==> e@ == code,
            r matches Err(e) ==> e == PapiError(status),
    {
        if status != PAPI_OK {
            Err(PapiError::from(status))
        } else {
            Ok(Event(code))
        }
    }
}

/// A name is accepted exactly when none of its characters is NUL: every
/// other character, `:` among them, may stand in a name, and a single NUL
/// anywhere makes it unusable.
pub proof fn law_name_ok_iff_no_nul(name: Seq<char>)
    ensures
        event_name_ok(name) <==> (forall|j: int| 0 <= j < name.len() ==> name[j] != '\0'),
{
    if !event_name_ok(name) {
        let j = choose|j: int| 0 <= j < name.len() && name[j] == '\0';
        assert(name[j] == '\0');
    } else {
        assert forall|j: int| 0 <= j < name.len() implies name[j] != '\0' by {
            if name[j] == '\0' {
                assert(name.contains('\0'));
            }
        }
    }
}

/// Putting any character other than NUL at the end of an acceptable name
/// keeps it acceptable, and a name with a NUL anywhere is refused.
pub proof fn law_name_extension(name: Seq<char>, c: char, i: int)
    ensures
        event_name_ok(name) && c != '\0' ==> event_name_ok(name.push(c)),
        0 <= i < name.len() && name[i] == '\0' ==> !event_name_ok(name),
{
    law_name_ok_iff_no_nul(name);
    law_name_ok_iff_no_nul(name.push(c));
    if event_name_ok(name) && c != '\0' {
        assert forall|j: int| 0 <= j < name.push(c).len() implies name.push(c)[j] != '\0' by {
            if j < name.len() {
                assert(name.push(c)[j] == name[j]);
            }
        }
    }
}

} // verus!
