//! The actor that drives the indicators.

use crate::clock::Instant;
use crate::ledstrategy::{LedState, LedStrategies, LedStrategy};
use crate::rpi::{Led, LedSwitch, RpiOutput};
use vstd::prelude::*;

verus! {

#[derive(Clone, Copy, Debug, PartialEq, Eq, Structural)]
pub enum LedActorMessage {
    /// The clock has moved on to this instant.
    Tick(Instant),
    /// An indicator is to show something else.
    StateChange { led: Led, state: LedState },
}

pub struct LedActor {
    rpi: RpiOutput,
    strategies: LedStrategies,
}

impl LedActor {
    /// The strategies of the four indicators.
    pub closed spec fn strategies(self) -> LedStrategies {
        self.strategies
    }

    /// The switchings that wait to be carried out, oldest first.
    pub closed spec fn pending(self) -> Seq<LedSwitch> {
        self.rpi@
    }

    /// The strategies after a message that is handled at `now`.
    pub open spec fn strategies_after(self, msg: LedActorMessage, now: Instant) -> LedStrategies {
        match msg {
            LedActorMessage::Tick(instant) => self.strategies().after_tick(instant),
            LedActorMessage::StateChange { led, state } => self.strategies().with(
                led,
                LedStrategy::started(led, state, now),
            ),
        }
    }

    /// What a message that is handled at `now` switches.
    pub open spec fn switched_by(self, msg: LedActorMessage, now: Instant) -> Seq<LedSwitch> {
        match msg {
            LedActorMessage::Tick(instant) => self.strategies().switched(instant),
            LedActorMessage::StateChange { led, state } => seq![
                LedSwitch { led, is_on: LedStrategy::first_level(state) },
            ],
        }
    }

    /// An actor over the given output, with all four indicators switched off.
    pub fn new(rpi: RpiOutput) -> (actor: LedActor)
        ensures
            actor.strategies() == LedStrategies::off(),
            actor.pending() == rpi@ + seq![
                LedSwitch { led: Led::L1, is_on: false },
                LedSwitch { led: Led::L2, is_on: false },
                LedSwitch { led: Led::L3, is_on: false },
                LedSwitch { led: Led::L4, is_on: false },
            ],
    {
        let mut rpi = rpi;
        let strategies = LedStrategies::all_off(&mut rpi);
        Self { rpi, strategies }
    }

    /// Nothing is left to do before the first message.
    pub fn startup(&mut self)
        ensures
            final(self).strategies() == old(self).strategies(),
            final(self).pending() == old(self).pending(),
    {
    }

    /// Handles one message at `now`: a tick goes to every strategy, a change of
    /// state replaces one strategy. Returns whether the actor is to stop, which
    /// it never is.
    pub fn handle_message(&mut self, msg: LedActorMessage, now: Instant) -> (should_terminate: bool)
        ensures
            !should_terminate,
            final(self).strategies() == old(self).strategies_after(msg, now),
            final(self).pending() == old(self).pending() + old(self).switched_by(msg, now),
    {
        match msg {
            LedActorMessage::Tick(instant) => {
                self.strategies.tick(instant, &mut self.rpi);
            },
            LedActorMessage::StateChange { led, state } => {
                self.strategies.update(&mut self.rpi, led, state, now);
                assert(self.rpi@ =~= old(self).rpi@ + old(self).switched_by(msg, now));
            },
        };
        false
    }

    /// Hands out the switchings that wait to be carried out, oldest first, and
    /// leaves none.
    pub fn take_switches(&mut self) -> (switches: Vec<LedSwitch>)
        ensures
            switches@ == old(self).pending(),
            final(self).pending() == Seq::<LedSwitch>::empty(),
            final(self).strategies() == old(self).strategies(),
    {
        self.rpi.take_pending()
    }
}

} // verus!
