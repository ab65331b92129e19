use punda::rtc::{RTCInterrupt, RtcWrite, Scheduler};

#[test]
fn compare_from_index_covers_four_registers() {
    assert_eq!(RTCInterrupt::compare_from_index(0), Some(RTCInterrupt::Compare0));
    assert_eq!(RTCInterrupt::compare_from_index(3), Some(RTCInterrupt::Compare3));
    assert_eq!(RTCInterrupt::compare_from_index(4), None);
}

#[test]
fn tick_handler_set_once() {
    let mut s: Scheduler<u8> = Scheduler::new();
    assert_eq!(s.get_interrupt(RTCInterrupt::Tick), None);
    assert_eq!(s.set_agnostic_interrupt(RTCInterrupt::Tick, 7), Ok(RtcWrite::EnableEvent(RTCInterrupt::Tick)));
    assert_eq!(s.get_interrupt(RTCInterrupt::Tick), Some(7));
    assert_eq!(s.set_agnostic_interrupt(RTCInterrupt::Tick, 8), Err(()));
    assert_eq!(s.get_interrupt(RTCInterrupt::Tick), Some(7));
}

#[test]
fn agnostic_refuses_compare_events() {
    let mut s: Scheduler<u8> = Scheduler::new();
    assert_eq!(s.set_agnostic_interrupt(RTCInterrupt::Compare1, 1), Err(()));
    assert_eq!(s.get_interrupt(RTCInterrupt::Compare1), None);
    assert_eq!(s.set_cmp_interrupt(RTCInterrupt::Overflow, 1, 5), Err(()));
}

#[test]
fn compare_handler_loads_register() {
    let mut s: Scheduler<u8> = Scheduler::new();
    assert_eq!(
        s.set_cmp_interrupt(RTCInterrupt::Compare2, 3, 1000),
        Ok((RtcWrite::SetCompare(2, 1000), RtcWrite::EnableEvent(RTCInterrupt::Compare2)))
    );
    assert_eq!(s.get_interrupt(RTCInterrupt::Compare2), Some(3));
    assert_eq!(s.set_cmp_interrupt(RTCInterrupt::Compare2, 4, 1), Err(()));
}

#[test]
fn unset_then_set_again() {
    let mut s: Scheduler<u8> = Scheduler::new();
    s.set_agnostic_interrupt(RTCInterrupt::Overflow, 1).unwrap();
    assert_eq!(s.unset_interrupt(RTCInterrupt::Overflow), RtcWrite::DisableEvent(RTCInterrupt::Overflow));
    assert_eq!(s.get_interrupt(RTCInterrupt::Overflow), None);
    assert!(s.set_agnostic_interrupt(RTCInterrupt::Overflow, 2).is_ok());
}

#[test]
fn available_compare_takes_first_free() {
    let mut s: Scheduler<u8> = Scheduler::new();
    s.set_cmp_interrupt(RTCInterrupt::Compare0, 9, 1).unwrap();
    assert_eq!(
        s.set_available_compare(5, 77),
        Ok((RtcWrite::SetCompare(1, 77), RtcWrite::EnableEvent(RTCInterrupt::Compare1)))
    );
    assert!(s.set_available_compare(6, 78).is_ok());
    assert!(s.set_available_compare(7, 79).is_ok());
    assert_eq!(s.get_interrupt(RTCInterrupt::Compare3), Some(7));
    assert_eq!(s.set_available_compare(8, 80), Err(()));
}

#[test]
fn dispatch_follows_priority() {
    let mut s: Scheduler<u8> = Scheduler::new();
    s.set_agnostic_interrupt(RTCInterrupt::Overflow, 1).unwrap();
    s.set_cmp_interrupt(RTCInterrupt::Compare1, 2, 10).unwrap();
    assert_eq!(s.dispatch([false; 6]), None);
    assert_eq!(
        s.dispatch([false, false, false, true, false, true]),
        Some((RTCInterrupt::Compare1, Some(2)))
    );
    assert_eq!(s.dispatch([false, true, false, true, false, false]), Some((RTCInterrupt::Overflow, Some(1))));
    assert_eq!(s.dispatch([true, true, true, true, true, true]), Some((RTCInterrupt::Tick, None)));
}

#[test]
fn unset_undoes_set() {
    let mut s: Scheduler<u8> = Scheduler::new();
    s.set_agnostic_interrupt(RTCInterrupt::Tick, 1).unwrap();
    s.set_cmp_interrupt(RTCInterrupt::Compare3, 2, 40).unwrap();
    s.unset_interrupt(RTCInterrupt::Compare3);
    assert_eq!(s.get_interrupt(RTCInterrupt::Compare3), None);
    assert_eq!(s.get_interrupt(RTCInterrupt::Tick), Some(1));
    assert!(s.set_cmp_interrupt(RTCInterrupt::Compare3, 4, 41).is_ok());
}
