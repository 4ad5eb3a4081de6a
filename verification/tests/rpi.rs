use fourbuttons::clock::Instant;
use fourbuttons::rpi::{
    button_for_key, button_for_pin, debounce, led_pin, Button, Led, LedSwitch, RealRpiInput,
    RpiOutput, DEBOUNCE_DELAY, PIN_BUTTON_1, PIN_BUTTON_2, PIN_BUTTON_3, PIN_BUTTON_4,
};

#[test]
fn debounce_takes_a_trigger_half_a_second_after_the_last() {
    let mut last_trigger = Instant::from_nanos(1_000);
    assert!(!debounce(&mut last_trigger, Instant::from_nanos(1_000)));
    assert!(!debounce(
        &mut last_trigger,
        Instant::from_nanos(1_000 + DEBOUNCE_DELAY - 1)
    ));
    assert_eq!(last_trigger, Instant::from_nanos(1_000));
    assert!(debounce(
        &mut last_trigger,
        Instant::from_nanos(1_000 + DEBOUNCE_DELAY)
    ));
    assert_eq!(last_trigger, Instant::from_nanos(500_001_000));
    assert!(!debounce(&mut last_trigger, Instant::from_nanos(900_000_000)));
    assert!(debounce(&mut last_trigger, Instant::from_nanos(1_000_001_000)));
}

#[test]
fn debounce_ignores_a_clock_that_went_back() {
    let mut last_trigger = Instant::from_nanos(2_000_000_000);
    assert!(!debounce(&mut last_trigger, Instant::from_nanos(0)));
    assert_eq!(last_trigger, Instant::from_nanos(2_000_000_000));
}

#[test]
fn instants_from_milliseconds() {
    assert_eq!(Instant::from_millis(500), Some(Instant::from_nanos(DEBOUNCE_DELAY)));
    assert_eq!(Instant::from_millis(u64::MAX / 1_000_000 + 1), None);
    assert_eq!(
        Instant::from_nanos(700).duration_since(Instant::from_nanos(200)),
        500
    );
    assert_eq!(
        Instant::from_nanos(200).duration_since(Instant::from_nanos(700)),
        0
    );
}

#[test]
fn each_button_has_its_own_debouncing() {
    let mut input = RealRpiInput::new(Instant::from_nanos(0));
    let later = Instant::from_nanos(600_000_000);
    assert_eq!(input.button_press(PIN_BUTTON_1, later), Some(Button::B1));
    assert_eq!(
        input.button_press(PIN_BUTTON_1, Instant::from_nanos(700_000_000)),
        None
    );
    assert_eq!(
        input.button_press(PIN_BUTTON_2, Instant::from_nanos(700_000_000)),
        Some(Button::B2)
    );
    assert_eq!(
        input.button_press(PIN_BUTTON_3, Instant::from_nanos(499_999_999)),
        None
    );
    assert_eq!(
        input.button_press(PIN_BUTTON_4, Instant::from_nanos(500_000_000)),
        Some(Button::B4)
    );
    assert_eq!(
        input,
        RealRpiInput {
            last_trigger_1: later,
            last_trigger_2: Instant::from_nanos(700_000_000),
            last_trigger_3: Instant::from_nanos(0),
            last_trigger_4: Instant::from_nanos(500_000_000),
        }
    );
}

#[test]
fn pins_and_keys() {
    assert_eq!(button_for_pin(2), Some(Button::B1));
    assert_eq!(button_for_pin(3), Some(Button::B2));
    assert_eq!(button_for_pin(20), Some(Button::B3));
    assert_eq!(button_for_pin(21), Some(Button::B4));
    assert_eq!(button_for_pin(22), None);
    assert_eq!(led_pin(Led::L1), 23);
    assert_eq!(led_pin(Led::L2), 24);
    assert_eq!(led_pin(Led::L3), 22);
    assert_eq!(led_pin(Led::L4), 27);
    assert_eq!(button_for_key(b'1'), Some(Button::B1));
    assert_eq!(button_for_key(b'2'), Some(Button::B2));
    assert_eq!(button_for_key(b'3'), Some(Button::B3));
    assert_eq!(button_for_key(b'4'), Some(Button::B4));
    assert_eq!(button_for_key(b'q'), Some(Button::Stop));
    assert_eq!(button_for_key(b'\n'), None);
    assert_eq!(button_for_key(b'5'), None);
}

#[test]
fn the_output_hands_out_its_switchings_in_order() {
    let mut rpi = RpiOutput::new();
    assert_eq!(rpi.take_pending(), vec![]);
    rpi.switch_led(Led::L2, true);
    rpi.switch_led(Led::L1, false);
    rpi.switch_led(Led::L2, false);
    assert_eq!(
        rpi.take_pending(),
        vec![
            LedSwitch { led: Led::L2, is_on: true },
            LedSwitch { led: Led::L1, is_on: false },
            LedSwitch { led: Led::L2, is_on: false },
        ]
    );
    assert_eq!(rpi.take_pending(), vec![]);
}
