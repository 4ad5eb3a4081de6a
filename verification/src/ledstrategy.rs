//! What each indicator shows: steadily on, steadily off, or a short blink that
//! ends by itself. One strategy per indicator turns ticks into switchings.

use crate::clock::Instant;
use crate::rpi::{level_after, Led, LedSwitch, RpiOutput};
use vstd::prelude::*;

verus! {

/// How long a temporary blink lasts, in nanoseconds.
pub const BLINK_DURATION: u64 = 1_000_000_000;

/// The time from one toggle of a blink to the next, in nanoseconds.
pub const BLINK_INTERVAL: u64 = 100_000_000;

/// What an indicator is asked to show.
#[derive(Clone, Copy, Debug, PartialEq, Eq, Structural)]
pub enum LedState {
    On,
    Off,
    BlinkTemporary,
}

/// An indicator that is steadily on.
#[derive(Clone, Copy, Debug, PartialEq, Eq, Structural)]
pub struct LedStrategyOn {}

impl LedStrategyOn {
    /// Switches the indicator on.
    pub fn new(led: Led, rpi: &mut RpiOutput) -> (strategy: LedStrategyOn)
        ensures
            final(rpi)@ == old(rpi)@.push(LedSwitch { led, is_on: true }),
    {
        rpi.switch_led(led, true);
        LedStrategyOn {}
    }

    /// A tick changes nothing and switches nothing.
    pub fn tick(&mut self, instant: Instant, rpi: &mut RpiOutput)
        ensures
            *final(self) == *old(self),
            final(rpi)@ == old(rpi)@,
    {
    }
}

/// An indicator that is steadily off.
#[derive(Clone, Copy, Debug, PartialEq, Eq, Structural)]
pub struct LedStrategyOff {}

impl LedStrategyOff {
    /// Switches the indicator off.
    pub fn new(led: Led, rpi: &mut RpiOutput) -> (strategy: LedStrategyOff)
        ensures
            final(rpi)@ == old(rpi)@.push(LedSwitch { led, is_on: false }),
    {
        rpi.switch_led(led, false);
        LedStrategyOff {}
    }

    /// A tick changes nothing and switches nothing.
    pub fn tick(&mut self, instant: Instant, rpi: &mut RpiOutput)
        ensures
            *final(self) == *old(self),
            final(rpi)@ == old(rpi)@,
    {
    }
}

/// An indicator that blinks for a second and then stays off.
#[derive(Clone, Copy, Debug, PartialEq, Eq, Structural)]
pub struct LedStrategyBlinkTemporary {
    /// Whether the indicator is lit.
    pub is_on: bool,
    /// Whether the blink is over.
    pub stopped: bool,
    pub created_at: Instant,
    /// When the indicator was last toggled.
    pub last_change: Instant,
    pub led: Led,
}

impl LedStrategyBlinkTemporary {
    /// A blink that begins at `now`, lit.
    pub open spec fn started(led: Led, now: Instant) -> LedStrategyBlinkTemporary {
        LedStrategyBlinkTemporary {
            is_on: true,
            stopped: false,
            created_at: now,
            last_change: now,
            led,
        }
    }

    /// Whether a tick at `instant` ends the blink.
    pub open spec fn expires(self, instant: Instant) -> bool {
        !self.stopped && instant.since(self.created_at) >= BLINK_DURATION
    }

    /// Whether a tick at `instant` toggles the indicator.
    pub open spec fn toggles(self, instant: Instant) -> bool {
        !self.stopped && !self.expires(instant) && instant.since(self.last_change)
            >= BLINK_INTERVAL
    }

    /// The blink after a tick at `instant`.
    pub open spec fn after_tick(self, instant: Instant) -> LedStrategyBlinkTemporary {
        if self.expires(instant) {
            LedStrategyBlinkTemporary { stopped: true, is_on: false, ..self }
        } else if self.toggles(instant) {
            LedStrategyBlinkTemporary { last_change: instant, is_on: !self.is_on, ..self }
        } else {
            self
        }
    }

    /// What a tick at `instant` switches.
    pub open spec fn switched(self, instant: Instant) -> Seq<LedSwitch> {
        if self.expires(instant) {
            seq![LedSwitch { led: self.led, is_on: false }]
        } else if self.toggles(instant) {
            seq![LedSwitch { led: self.led, is_on: !self.is_on }]
        } else {
            Seq::empty()
        }
    }

    /// Switches the indicator on and begins a blink at `now`.
    pub fn new(led: Led, rpi: &mut RpiOutput, now: Instant) -> (strategy: LedStrategyBlinkTemporary)
        ensures
            strategy == LedStrategyBlinkTemporary::started(led, now),
            final(rpi)@ == old(rpi)@.push(LedSwitch { led, is_on: true }),
    {
        rpi.switch_led(led, true);
        LedStrategyBlinkTemporary {
            is_on: true,
            stopped: false,
            created_at: now,
            last_change: now,
            led,
        }
    }

    /// A blink that is over stays as it is. One that has lasted `BLINK_DURATION`
    /// is over: the indicator goes off. Else, `BLINK_INTERVAL` after the last
    /// toggle, the indicator is toggled.
    pub fn tick(&mut self, instant: Instant, rpi: &mut RpiOutput)
        ensures
            *final(self) == old(self).after_tick(instant),
            final(rpi)@ == old(rpi)@ + old(self).switched(instant),
    {
        if self.stopped {
            return;
        }
        if instant.duration_since(self.created_at) >= BLINK_DURATION {
            self.stopped = true;
            self.is_on = false;
            rpi.switch_led(self.led, false);
        } else if instant.duration_since(self.last_change) >= BLINK_INTERVAL {
            self.last_change = instant;
            self.is_on = !self.is_on;
            rpi.switch_led(self.led, self.is_on);
        }
    }

    /// A blink that is over is frozen: no tick changes it or switches anything.
    pub proof fn lemma_stopped_is_frozen(self, instant: Instant)
        requires
            self.stopped,
        ensures
            self.after_tick(instant) == self,
            self.switched(instant) == Seq::<LedSwitch>::empty(),
    {
    }

    /// A tick one second or more after the blink began leaves it over and the
    /// indicator unlit, whatever went before.
    pub proof fn lemma_ends_by_itself(self, instant: Instant)
        requires
            instant.since(self.created_at) >= BLINK_DURATION,
            self.stopped ==> !self.is_on,
        ensures
            self.after_tick(instant).stopped,
            !self.after_tick(instant).is_on,
    {
    }
}

/// The strategy of one indicator.
#[derive(Clone, Copy, Debug, PartialEq, Eq, Structural)]
pub enum LedStrategy {
    On(LedStrategyOn),
    Off(LedStrategyOff),
    BlinkTemporary(LedStrategyBlinkTemporary),
}

impl LedStrategy {
    /// What the indicator was last asked to show.
    pub open spec fn state(self) -> LedState {
        match self {
            LedStrategy::On(_) => LedState::On,
            LedStrategy::Off(_) => LedState::Off,
            LedStrategy::BlinkTemporary(_) => LedState::BlinkTemporary,
        }
    }

    /// The strategy after a tick at `instant`.
    pub open spec fn after_tick(self, instant: Instant) -> LedStrategy {
        match self {
            LedStrategy::BlinkTemporary(blink) => LedStrategy::BlinkTemporary(
                blink.after_tick(instant),
            ),
            _ => self,
        }
    }

    /// What a tick at `instant` switches.
    pub open spec fn switched(self, instant: Instant) -> Seq<LedSwitch> {
        match self {
            LedStrategy::BlinkTemporary(blink) => blink.switched(instant),
            _ => Seq::empty(),
        }
    }

    /// The strategy that shows `led_state` on `led` from `now` on.
    pub open spec fn started(led: Led, led_state: LedState, now: Instant) -> LedStrategy {
        match led_state {
            LedState::On => LedStrategy::On(LedStrategyOn {}),
            LedState::Off => LedStrategy::Off(LedStrategyOff {}),
            LedState::BlinkTemporary => LedStrategy::BlinkTemporary(
                LedStrategyBlinkTemporary::started(led, now),
            ),
        }
    }

    /// The level that a strategy for `led_state` begins with: off for `Off`, on
    /// for the two others.
    pub open spec fn first_level(led_state: LedState) -> bool {
        led_state != LedState::Off
    }

    /// Switches `led` to the level that `led_state` begins with, and gives the
    /// strategy that shows `led_state` from `now` on.
    pub fn new(led: Led, led_state: LedState, rpi: &mut RpiOutput, now: Instant) -> (strategy:
        LedStrategy)
        ensures
            strategy == LedStrategy::started(led, led_state, now),
            final(rpi)@ == old(rpi)@.push(
                LedSwitch { led, is_on: LedStrategy::first_level(led_state) },
            ),
    {
        match led_state {
            LedState::On => LedStrategy::On(LedStrategyOn::new(led, rpi)),
            LedState::Off => LedStrategy::Off(LedStrategyOff::new(led, rpi)),
            LedState::BlinkTemporary => LedStrategy::BlinkTemporary(
                LedStrategyBlinkTemporary::new(led, rpi, now),
            ),
        }
    }

    /// Passes a tick to the strategy.
    pub fn tick(&mut self, instant: Instant, rpi: &mut RpiOutput)
        ensures
            *final(self) == old(self).after_tick(instant),
            final(rpi)@ == old(rpi)@ + old(self).switched(instant),
    {
        match self {
            LedStrategy::On(strategy) => {
                strategy.tick(instant, rpi);
                assert(rpi@ =~= old(rpi)@ + old(self).switched(instant));
            },
            LedStrategy::Off(strategy) => {
                strategy.tick(instant, rpi);
                assert(rpi@ =~= old(rpi)@ + old(self).switched(instant));
            },
            LedStrategy::BlinkTemporary(strategy) => {
                strategy.tick(instant, rpi);
            },
        }
    }

    /// The level at which the strategy holds its indicator.
    pub open spec fn level(self) -> bool {
        match self {
            LedStrategy::On(_) => true,
            LedStrategy::Off(_) => false,
            LedStrategy::BlinkTemporary(blink) => blink.is_on,
        }
    }

    /// Whether the strategy switches no indicator but `led`.
    pub open spec fn drives(self, led: Led) -> bool {
        self matches LedStrategy::BlinkTemporary(blink) ==> blink.led == led
    }

    /// A new strategy leaves its indicator at the strategy's level, whatever was
    /// switched before.
    pub proof fn lemma_started_at_level(
        led: Led,
        led_state: LedState,
        now: Instant,
        switches: Seq<LedSwitch>,
    )
        ensures
            LedStrategy::started(led, led_state, now).drives(led),
            level_after(
                switches.push(LedSwitch { led, is_on: LedStrategy::first_level(led_state) }),
                led,
            ) == Some(LedStrategy::started(led, led_state, now).level()),
    {
    }

    /// A tick leaves the indicator at the strategy's level, where it was there
    /// before: the indicator shows what the strategy holds.
    pub proof fn lemma_tick_keeps_level(
        self,
        led: Led,
        instant: Instant,
        switches: Seq<LedSwitch>,
    )
        requires
            self.drives(led),
            level_after(switches, led) == Some(self.level()),
        ensures
            self.after_tick(instant).drives(led),
            level_after(switches + self.switched(instant), led) == Some(
                self.after_tick(instant).level(),
            ),
    {
        let switched = self.switched(instant);
        if switched.len() == 0 {
            assert(switches + switched =~= switches);
        } else {
            assert(switches + switched =~= switches.push(switched[0]));
        }
    }

    /// A tick never changes what an indicator was asked to show: only a command
    /// does.
    pub proof fn lemma_tick_keeps_state(self, instant: Instant)
        ensures
            self.after_tick(instant).state() == self.state(),
    {
    }
}

/// The strategies of the four indicators.
#[derive(Clone, Copy, Debug, PartialEq, Eq, Structural)]
pub struct LedStrategies {
    pub l1: LedStrategy,
    pub l2: LedStrategy,
    pub l3: LedStrategy,
    pub l4: LedStrategy,
}

impl LedStrategies {
    /// The strategy of one indicator.
    pub open spec fn of(self, led: Led) -> LedStrategy {
        match led {
            Led::L1 => self.l1,
            Led::L2 => self.l2,
            Led::L3 => self.l3,
            Led::L4 => self.l4,
        }
    }

    /// These strategies with that of one indicator replaced.
    pub open spec fn with(self, led: Led, strategy: LedStrategy) -> LedStrategies {
        match led {
            Led::L1 => LedStrategies { l1: strategy, ..self },
            Led::L2 => LedStrategies { l2: strategy, ..self },
            Led::L3 => LedStrategies { l3: strategy, ..self },
            Led::L4 => LedStrategies { l4: strategy, ..self },
        }
    }

    /// The strategies after a tick at `instant`: each has had the tick.
    pub open spec fn after_tick(self, instant: Instant) -> LedStrategies {
        LedStrategies {
            l1: self.l1.after_tick(instant),
            l2: self.l2.after_tick(instant),
            l3: self.l3.after_tick(instant),
            l4: self.l4.after_tick(instant),
        }
    }

    /// What a tick at `instant` switches: what each strategy does, the first
    /// indicator's first.
    pub open spec fn switched(self, instant: Instant) -> Seq<LedSwitch> {
        self.l1.switched(instant) + self.l2.switched(instant) + self.l3.switched(instant)
            + self.l4.switched(instant)
    }

    /// All four indicators steadily off.
    pub open spec fn off() -> LedStrategies {
        LedStrategies {
            l1: LedStrategy::Off(LedStrategyOff {}),
            l2: LedStrategy::Off(LedStrategyOff {}),
            l3: LedStrategy::Off(LedStrategyOff {}),
            l4: LedStrategy::Off(LedStrategyOff {}),
        }
    }

    /// Switches all four indicators off, the first first.
    pub fn all_off(rpi: &mut RpiOutput) -> (strategies: LedStrategies)
        ensures
            strategies == LedStrategies::off(),
            final(rpi)@ == old(rpi)@ + seq![
                LedSwitch { led: Led::L1, is_on: false },
                LedSwitch { led: Led::L2, is_on: false },
                LedSwitch { led: Led::L3, is_on: false },
                LedSwitch { led: Led::L4, is_on: false },
            ],
    {
        rpi.switch_led(Led::L1, false);
        rpi.switch_led(Led::L2, false);
        rpi.switch_led(Led::L3, false);
        rpi.switch_led(Led::L4, false);
        assert(rpi@ =~= old(rpi)@ + seq![
            LedSwitch { led: Led::L1, is_on: false },
            LedSwitch { led: Led::L2, is_on: false },
            LedSwitch { led: Led::L3, is_on: false },
            LedSwitch { led: Led::L4, is_on: false },
        ]);
        LedStrategies {
            l1: LedStrategy::Off(LedStrategyOff {}),
            l2: LedStrategy::Off(LedStrategyOff {}),
            l3: LedStrategy::Off(LedStrategyOff {}),
            l4: LedStrategy::Off(LedStrategyOff {}),
        }
    }

    /// Passes a tick to the strategy of every indicator, the first first.
    pub fn tick(&mut self, instant: Instant, rpi: &mut RpiOutput)
        ensures
            *final(self) == old(self).after_tick(instant),
            final(rpi)@ == old(rpi)@ + old(self).switched(instant),
    {
        self.l1.tick(instant, rpi);
        self.l2.tick(instant, rpi);
        self.l3.tick(instant, rpi);
        self.l4.tick(instant, rpi);
        assert(rpi@ =~= old(rpi)@ + old(self).switched(instant));
    }

    /// Takes a command: switches `led` to the level that `led_state` begins
    /// with and puts the strategy for `led_state`, begun at `now`, in place of
    /// the indicator's strategy. The other indicators are left as they are.
    pub fn update(&mut self, rpi: &mut RpiOutput, led: Led, led_state: LedState, now: Instant)
        ensures
            *final(self) == old(self).with(led, LedStrategy::started(led, led_state, now)),
            final(rpi)@ == old(rpi)@.push(
                LedSwitch { led, is_on: LedStrategy::first_level(led_state) },
            ),
    {
        let new_state = LedStrategy::new(led, led_state, rpi, now);
        match led {
            Led::L1 => self.l1 = new_state,
            Led::L2 => self.l2 = new_state,
            Led::L3 => self.l3 = new_state,
            Led::L4 => self.l4 = new_state,
        }
    }

    /// A tick never changes what any indicator was asked to show.
    pub proof fn lemma_tick_keeps_states(self, instant: Instant, led: Led)
        ensures
            self.after_tick(instant).of(led).state() == self.of(led).state(),
    {
    }
}

} // verus!
