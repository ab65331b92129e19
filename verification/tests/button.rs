use punda::button::{button_events, Button, History, State};

#[test]
fn new_released_starts_released() {
    let h = History::new_released();
    assert_eq!(h.state, State::Released);
    assert_eq!(h.state(), State::Released);
}

#[test]
fn eight_low_samples_push() {
    let mut h = History::new_released();
    for _ in 0..7 {
        assert!(!h.measure(true));
        assert_eq!(h.state, State::Released);
    }
    assert!(h.measure(true));
    assert_eq!(h.state, State::Pushed);
    assert!(!h.measure(true));
}

#[test]
fn eight_high_samples_release() {
    let mut h = History::new_released();
    for _ in 0..8 {
        h.measure(true);
    }
    assert_eq!(h.state, State::Pushed);
    for _ in 0..7 {
        assert!(!h.measure(false));
        assert_eq!(h.state, State::Pushed);
    }
    assert!(h.measure(false));
    assert_eq!(h.state, State::Released);
}

#[test]
fn bouncing_pin_never_changes_state() {
    let mut h = History::new_released();
    for i in 0..40 {
        assert!(!h.measure(i % 2 == 0));
    }
    assert_eq!(h.state, State::Released);
    for i in 0..40 {
        // seven lows then one high, over and over
        assert!(!h.measure(i % 8 != 7));
    }
    assert_eq!(h.state, State::Released);
}

#[test]
fn no_change_within_seven_after_a_change() {
    let mut h = History::new_released();
    for _ in 0..8 {
        h.measure(true);
    }
    for _ in 0..7 {
        assert!(!h.measure(false));
    }
    assert_eq!(h.state, State::Pushed);
}

#[test]
fn both_buttons_pushed_together_raise_three_events() {
    let mut a = History::new_released();
    let mut b = History::new_released();
    for _ in 0..7 {
        assert!(button_events(&mut a, &mut b, true, true).is_empty());
    }
    let events = button_events(&mut a, &mut b, true, true);
    assert_eq!(
        events,
        vec![(Button::A, State::Pushed), (Button::B, State::Pushed), (Button::Both, State::Pushed)]
    );
}

#[test]
fn one_button_raises_one_event() {
    let mut a = History::new_released();
    let mut b = History::new_released();
    let mut last = Vec::new();
    for _ in 0..8 {
        last = button_events(&mut a, &mut b, false, true);
    }
    assert_eq!(last, vec![(Button::B, State::Pushed)]);
    assert_eq!(a.state, State::Released);
}
