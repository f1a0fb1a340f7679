pub mod counter;
pub mod error;
pub mod event;
pub mod event_set;
pub mod handler;
pub mod lock;
pub mod papi;
pub mod status;

pub use counter::PapiCounter;
pub use error::PapiError;
pub use event::{is_valid_event_name, Event};
pub use event_set::EventSet;
pub use handler::{PapiHandler, SetOption, PAPI_ATTACH, PAPI_DETACH};
pub use lock::{CounterLock, LockAttempt};
pub use papi::Papi;
pub use status::{check_status, PAPI_NULL, PAPI_OK, PAPI_VER_CURRENT};
