use punda::button::Button;
use punda::gpio::ButtonHandlers;

#[test]
fn handlers_start_empty() {
    let h: ButtonHandlers<u8> = ButtonHandlers::new();
    assert!(!h.is_registered(Button::A));
    assert!(!h.is_registered(Button::B));
    assert!(!h.is_registered(Button::Both));
    assert_eq!(h.gpiote_handler(true, false), None);
}

#[test]
fn interrupt_picks_the_pressed_button() {
    let mut h: ButtonHandlers<u8> = ButtonHandlers::new();
    h.register_a_button_handler(1);
    h.register_b_button_handler(2);
    h.register_both_button_handler(3);
    assert!(h.is_registered(Button::Both));
    assert_eq!(h.gpiote_handler(true, false), Some(1));
    assert_eq!(h.gpiote_handler(false, true), Some(2));
    assert_eq!(h.gpiote_handler(true, true), Some(3));
}
