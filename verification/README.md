# papi

Handles over the PAPI hardware performance counter library.

- `src/` is the verified library. It holds what the bindings decide once
  PAPI has answered: how a status code is read (`status`), the error type
  (`error`), events and their names (`event`), event sets (`event_set`),
  and the single-counter lock of a PAPI instance as a state machine
  (`lock`, `papi`, `handler`, `counter`), with its laws in `lock.rs`.
- `app/` makes the calls into the PAPI C library (`app/ffi.rs`) and owns
  the resources: it drives the verified state machine and panics where a
  drop cannot report an error.
- `tests/` runs the library on concrete values.
