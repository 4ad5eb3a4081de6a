use fourbuttons::clock::Instant;
use fourbuttons::ledstrategy::{
    LedState, LedStrategies, LedStrategy, LedStrategyBlinkTemporary, LedStrategyOff,
    LedStrategyOn,
};
use fourbuttons::rpi::{Led, LedSwitch, RpiOutput};

const T0: u64 = 7_000_000_000;

fn millis_after_t0(millis: u64) -> Instant {
    Instant::from_nanos(T0 + millis * 1_000_000)
}

fn switch(led: Led, is_on: bool) -> LedSwitch {
    LedSwitch { led, is_on }
}

#[test]
fn blink_temporary_is_lit_then_unlit_then_frozen() {
    let mut rpi = RpiOutput::new();
    let mut blink = LedStrategyBlinkTemporary::new(Led::L2, &mut rpi, millis_after_t0(0));
    assert_eq!(rpi.take_pending(), vec![switch(Led::L2, true)]);
    assert!(blink.is_on);

    blink.tick(millis_after_t0(50), &mut rpi);
    assert_eq!(rpi.take_pending(), vec![]);
    assert!(blink.is_on);

    blink.tick(millis_after_t0(150), &mut rpi);
    assert_eq!(rpi.take_pending(), vec![switch(Led::L2, false)]);
    assert!(!blink.is_on);

    blink.tick(millis_after_t0(1000), &mut rpi);
    assert_eq!(rpi.take_pending(), vec![switch(Led::L2, false)]);
    assert!(!blink.is_on);
    assert!(blink.stopped);

    let frozen = blink;
    blink.tick(millis_after_t0(1100), &mut rpi);
    blink.tick(millis_after_t0(1200), &mut rpi);
    blink.tick(millis_after_t0(5000), &mut rpi);
    assert_eq!(rpi.take_pending(), vec![]);
    assert_eq!(blink, frozen);
}

#[test]
fn blink_toggles_every_hundred_milliseconds_for_a_second() {
    let mut rpi = RpiOutput::new();
    let mut blink = LedStrategyBlinkTemporary::new(Led::L1, &mut rpi, millis_after_t0(0));
    let mut millis = 10;
    while millis <= 1200 {
        blink.tick(millis_after_t0(millis), &mut rpi);
        millis += 10;
    }
    assert_eq!(
        rpi.take_pending(),
        vec![
            switch(Led::L1, true),
            switch(Led::L1, false),
            switch(Led::L1, true),
            switch(Led::L1, false),
            switch(Led::L1, true),
            switch(Led::L1, false),
            switch(Led::L1, true),
            switch(Led::L1, false),
            switch(Led::L1, true),
            switch(Led::L1, false),
            switch(Led::L1, false),
        ]
    );
    assert!(blink.stopped);
    assert!(!blink.is_on);
}

#[test]
fn blink_thresholds_are_exact() {
    let mut rpi = RpiOutput::new();
    let mut blink = LedStrategyBlinkTemporary::new(Led::L3, &mut rpi, Instant::from_nanos(T0));
    blink.tick(Instant::from_nanos(T0 + 99_999_999), &mut rpi);
    assert!(blink.is_on);
    blink.tick(Instant::from_nanos(T0 + 100_000_000), &mut rpi);
    assert!(!blink.is_on);
    assert_eq!(blink.last_change, Instant::from_nanos(T0 + 100_000_000));
    blink.tick(Instant::from_nanos(T0 + 999_999_999), &mut rpi);
    assert!(blink.is_on);
    assert!(!blink.stopped);
    blink.tick(Instant::from_nanos(T0 + 1_000_000_000), &mut rpi);
    assert!(blink.stopped);
    assert!(!blink.is_on);
}

#[test]
fn a_tick_from_before_the_blink_began_changes_nothing() {
    let mut rpi = RpiOutput::new();
    let mut blink = LedStrategyBlinkTemporary::new(Led::L3, &mut rpi, Instant::from_nanos(T0));
    let begun = blink;
    blink.tick(Instant::from_nanos(0), &mut rpi);
    assert_eq!(blink, begun);
    assert_eq!(rpi.take_pending(), vec![switch(Led::L3, true)]);
}

#[test]
fn on_and_off_switch_once_and_ignore_ticks() {
    let mut rpi = RpiOutput::new();
    let mut on = LedStrategyOn::new(Led::L4, &mut rpi);
    let mut off = LedStrategyOff::new(Led::L1, &mut rpi);
    on.tick(millis_after_t0(5000), &mut rpi);
    off.tick(millis_after_t0(5000), &mut rpi);
    assert_eq!(
        rpi.take_pending(),
        vec![switch(Led::L4, true), switch(Led::L1, false)]
    );
}

#[test]
fn all_off_switches_every_indicator_off() {
    let mut rpi = RpiOutput::new();
    let strategies = LedStrategies::all_off(&mut rpi);
    assert_eq!(
        rpi.take_pending(),
        vec![
            switch(Led::L1, false),
            switch(Led::L2, false),
            switch(Led::L3, false),
            switch(Led::L4, false),
        ]
    );
    let off = LedStrategy::Off(LedStrategyOff {});
    assert_eq!(
        strategies,
        LedStrategies {
            l1: off,
            l2: off,
            l3: off,
            l4: off
        }
    );
}

#[test]
fn update_replaces_one_strategy_and_tick_reaches_all() {
    let mut rpi = RpiOutput::new();
    let mut strategies = LedStrategies::all_off(&mut rpi);
    rpi.take_pending();

    strategies.update(&mut rpi, Led::L3, LedState::On, millis_after_t0(0));
    strategies.update(&mut rpi, Led::L2, LedState::BlinkTemporary, millis_after_t0(0));
    strategies.update(&mut rpi, Led::L4, LedState::BlinkTemporary, millis_after_t0(40));
    strategies.update(&mut rpi, Led::L1, LedState::Off, millis_after_t0(40));
    assert_eq!(
        rpi.take_pending(),
        vec![
            switch(Led::L3, true),
            switch(Led::L2, true),
            switch(Led::L4, true),
            switch(Led::L1, false),
        ]
    );
    assert_eq!(strategies.l1, LedStrategy::Off(LedStrategyOff {}));
    assert_eq!(strategies.l3, LedStrategy::On(LedStrategyOn {}));

    strategies.tick(millis_after_t0(100), &mut rpi);
    assert_eq!(rpi.take_pending(), vec![switch(Led::L2, false)]);
    strategies.tick(millis_after_t0(140), &mut rpi);
    assert_eq!(rpi.take_pending(), vec![switch(Led::L4, false)]);
    strategies.tick(millis_after_t0(240), &mut rpi);
    assert_eq!(
        rpi.take_pending(),
        vec![switch(Led::L2, true), switch(Led::L4, true)]
    );
    // The second indicator's blink is over; the fourth's, begun later, toggles.
    strategies.tick(millis_after_t0(1000), &mut rpi);
    assert_eq!(
        rpi.take_pending(),
        vec![switch(Led::L2, false), switch(Led::L4, false)]
    );
    strategies.tick(millis_after_t0(1040), &mut rpi);
    assert_eq!(rpi.take_pending(), vec![switch(Led::L4, false)]);
    strategies.tick(millis_after_t0(9000), &mut rpi);
    assert_eq!(rpi.take_pending(), vec![]);
    assert_eq!(strategies.l3, LedStrategy::On(LedStrategyOn {}));

    // A command ends a blink that is over, or one that is running.
    strategies.update(&mut rpi, Led::L2, LedState::On, millis_after_t0(9000));
    assert_eq!(strategies.l2, LedStrategy::On(LedStrategyOn {}));
    assert_eq!(rpi.take_pending(), vec![switch(Led::L2, true)]);
}
