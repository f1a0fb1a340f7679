use papi::{
    check_status, is_valid_event_name, CounterLock, Event, EventSet, LockAttempt, Papi,
    PapiCounter, PapiError, PapiHandler, SetOption, PAPI_ATTACH, PAPI_DETACH, PAPI_NULL, PAPI_OK,
    PAPI_VER_CURRENT,
};

#[test]
fn lib_it_works() {
    assert_eq!(2 + 2, 4);
}

#[test]
fn error_keeps_code() {
    let e = PapiError::from(-7);
    assert_eq!(e, PapiError(-7));
    assert_eq!(e.code(), -7);
}

#[test]
fn status_ok_and_errors() {
    assert_eq!(check_status(PAPI_OK), Ok(()));
    assert_eq!(check_status(-1), Err(PapiError(-1)));
    assert_eq!(check_status(3), Err(PapiError(3)));
}

#[test]
fn constants() {
    assert_eq!(PAPI_OK, 0);
    assert_eq!(PAPI_NULL, -1);
    assert_eq!(PAPI_VER_CURRENT, 84344832);
}

#[test]
fn init_needs_current_version() {
    let p = Papi::new(PAPI_VER_CURRENT, 1).unwrap();
    assert_eq!(p.counter_lock(), CounterLock::Free);
    match Papi::new(-2, 1) {
        Err(e) => assert_eq!(e, PapiError(-2)),
        Ok(_) => panic!("initialisation accepted a wrong version"),
    }
    assert!(Papi::new(PAPI_OK, 1).is_err());
}

#[test]
fn event_names() {
    assert!(is_valid_event_name("PAPI_TOT_INS"));
    assert!(is_valid_event_name(""));
    assert!(!is_valid_event_name("PAPI\0TOT"));
    assert!(!is_valid_event_name("\0"));
}

#[test]
fn event_lookup() {
    let e = Event::from_lookup(PAPI_OK, 0x4000_0032u32 as i32).unwrap();
    assert_eq!(e.get_code(), 0x4000_0032u32 as i32);
    assert_eq!(Event::from_lookup(-7, 5), Err(PapiError(-7)));
}

#[test]
fn event_set_creation() {
    let s = EventSet::new(PAPI_OK, 12).unwrap();
    assert_eq!(s.raw_event_set(), 12);
    match EventSet::new(-3, 12) {
        Err(e) => assert_eq!(e, PapiError(-3)),
        Ok(_) => panic!("creation accepted an error status"),
    }
}

#[test]
fn event_set_size() {
    assert_eq!(EventSet::size(0), 0);
    assert_eq!(EventSet::size(3), 3);
    assert_eq!(EventSet::size(-1), usize::MAX);
}

#[test]
fn handlers() {
    let p = Papi::new(PAPI_VER_CURRENT, 1).unwrap();
    let s = EventSet::new(PAPI_OK, 4).unwrap();
    let h = p.local_handler(&s);
    assert_eq!(h.event_set(), 4);
    let a = p.attach(&s, PAPI_OK).unwrap();
    assert_eq!(a.event_set(), 4);
    match p.attach(&s, -8) {
        Err(e) => assert_eq!(e, PapiError(-8)),
        Ok(_) => panic!("attach accepted an error status"),
    }
}

#[test]
fn one_counter_at_a_time() {
    let mut p = Papi::new(PAPI_VER_CURRENT, 1).unwrap();
    let s = EventSet::new(PAPI_OK, 1).unwrap();
    let h = p.local_handler(&s);
    assert_eq!(p.try_lock_counter(false), LockAttempt::Acquired);
    let c = h.start_count(&mut p, PAPI_OK).unwrap();
    assert_eq!(c.event_set(), 1);
    assert_eq!(p.counter_lock(), CounterLock::Held { locked_while_panicking: false });
    assert_eq!(p.try_lock_counter(false), LockAttempt::WouldBlock);
    assert_eq!(p.stop_counter(c, PAPI_OK, false), Ok(()));
    assert_eq!(p.counter_lock(), CounterLock::Free);
    assert_eq!(p.try_lock_counter(false), LockAttempt::Acquired);
}

#[test]
fn failed_start_gives_lock_back() {
    let mut p = Papi::new(PAPI_VER_CURRENT, 1).unwrap();
    let s = EventSet::new(PAPI_OK, 1).unwrap();
    let h = p.local_handler(&s);
    assert_eq!(p.try_lock_counter(false), LockAttempt::Acquired);
    match h.start_count(&mut p, -9) {
        Err(e) => assert_eq!(e, PapiError(-9)),
        Ok(_) => panic!("start accepted an error status"),
    }
    assert_eq!(p.counter_lock(), CounterLock::Free);
    assert_eq!(p.try_lock_counter(false), LockAttempt::Acquired);
}

#[test]
fn failed_stop_poisons() {
    let mut p = Papi::new(PAPI_VER_CURRENT, 1).unwrap();
    let s = EventSet::new(PAPI_OK, 1).unwrap();
    let h = p.local_handler(&s);
    assert_eq!(p.try_lock_counter(false), LockAttempt::Acquired);
    let c = h.start_count(&mut p, PAPI_OK).unwrap();
    assert_eq!(p.stop_counter(c, -4, false), Err(PapiError(-4)));
    assert_eq!(p.counter_lock(), CounterLock::Poisoned);
    assert_eq!(p.try_lock_counter(false), LockAttempt::Poisoned);
    assert_eq!(p.counter_lock(), CounterLock::Poisoned);
}

#[test]
fn stop_while_unwinding_poisons() {
    let mut p = Papi::new(PAPI_VER_CURRENT, 1).unwrap();
    let s = EventSet::new(PAPI_OK, 1).unwrap();
    let h = p.local_handler(&s);
    assert_eq!(p.try_lock_counter(false), LockAttempt::Acquired);
    let c = h.start_count(&mut p, PAPI_OK).unwrap();
    assert_eq!(p.stop_counter(c, PAPI_OK, true), Ok(()));
    assert_eq!(p.try_lock_counter(false), LockAttempt::Poisoned);
}

#[test]
fn start_and_stop_within_one_unwind_keeps_lock() {
    let mut p = Papi::new(PAPI_VER_CURRENT, 1).unwrap();
    let s = EventSet::new(PAPI_OK, 1).unwrap();
    let h = p.local_handler(&s);
    assert_eq!(p.try_lock_counter(true), LockAttempt::Acquired);
    let c = h.start_count(&mut p, PAPI_OK).unwrap();
    assert_eq!(p.counter_lock(), CounterLock::Held { locked_while_panicking: true });
    assert_eq!(p.stop_counter(c, PAPI_OK, true), Ok(()));
    assert_eq!(p.counter_lock(), CounterLock::Free);
    assert_eq!(p.try_lock_counter(false), LockAttempt::Acquired);
}

#[test]
fn lock_refused_while_starting() {
    let mut p = Papi::new(PAPI_VER_CURRENT, 1).unwrap();
    assert_eq!(p.try_lock_counter(false), LockAttempt::Acquired);
    assert_eq!(p.counter_lock(), CounterLock::Starting { locked_while_panicking: false });
    assert_eq!(p.try_lock_counter(false), LockAttempt::WouldBlock);
    assert_eq!(p.counter_lock(), CounterLock::Starting { locked_while_panicking: false });
}

#[test]
fn event_set_handle_is_fixed() {
    let s = EventSet::new(PAPI_OK, 21).unwrap();
    let p = Papi::new(PAPI_VER_CURRENT, 1).unwrap();
    let _h = p.local_handler(&s);
    let _a = p.attach(&s, PAPI_OK).unwrap();
    let _n = EventSet::size(2);
    assert_eq!(check_status(-5), Err(PapiError(-5)));
    assert_eq!(s.raw_event_set(), 21);
    assert_eq!(s.raw_event_set(), 21);
}

#[test]
fn reading_counts() {
    assert_eq!(PapiCounter::values_buffer(0), Vec::<i64>::new());
    assert_eq!(PapiCounter::values_buffer(3), vec![0i64, 0, 0]);
    let mut p = Papi::new(PAPI_VER_CURRENT, 1).unwrap();
    let s = EventSet::new(PAPI_OK, 1).unwrap();
    let h = p.local_handler(&s);
    assert_eq!(p.try_lock_counter(false), LockAttempt::Acquired);
    let c = h.start_count(&mut p, PAPI_OK).unwrap();
    assert_eq!(c.read_events(PAPI_OK, vec![5, 7]), Ok(vec![5, 7]));
    assert_eq!(c.read_events(-1, vec![5, 7]), Err(PapiError(-1)));
}

#[test]
fn handlers_and_counters_know_their_instance() {
    let mut p = Papi::new(PAPI_VER_CURRENT, 7).unwrap();
    assert_eq!(p.instance(), 7);
    let s = EventSet::new(PAPI_OK, 2).unwrap();
    let h = PapiHandler::new(&s, &p);
    assert_eq!(h.papi_instance(), 7);
    assert_eq!(p.local_handler(&s).papi_instance(), 7);
    assert_eq!(p.attach(&s, PAPI_OK).unwrap().papi_instance(), 7);
    assert_eq!(p.try_lock_counter(false), LockAttempt::Acquired);
    let c = h.start_count(&mut p, PAPI_OK).unwrap();
    assert_eq!(c.papi_instance(), 7);
    assert_eq!(p.instance(), 7);
}

#[test]
fn attach_and_detach_options() {
    let p = Papi::new(PAPI_VER_CURRENT, 1).unwrap();
    let s = EventSet::new(PAPI_OK, 9).unwrap();
    assert_eq!(
        p.attach_option(&s, 4242),
        SetOption { option: PAPI_ATTACH, eventset: 9, tid: 4242 }
    );
    let h = p.local_handler(&s);
    assert_eq!(h.detach_option(), SetOption { option: PAPI_DETACH, eventset: 9, tid: 0 });
    assert_eq!(PAPI_ATTACH, 19);
    assert_eq!(PAPI_DETACH, 1);
}
