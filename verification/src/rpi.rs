//! The appliance's four buttons and four indicators, and what is decided
//! between a pin and a button press.

use crate::clock::Instant;
use vstd::prelude::*;

verus! {

pub const PIN_BUTTON_1: u8 = 2;

pub const PIN_BUTTON_2: u8 = 3;

pub const PIN_BUTTON_3: u8 = 20;

pub const PIN_BUTTON_4: u8 = 21;

pub const PIN_LED_1: u8 = 23;

pub const PIN_LED_2: u8 = 24;

pub const PIN_LED_3: u8 = 22;

pub const PIN_LED_4: u8 = 27;

/// The least gap, in nanoseconds, between two presses of one button that both
/// count. The switches bounce for hundreds of milliseconds.
pub const DEBOUNCE_DELAY: u64 = 500_000_000;

#[derive(Clone, Copy, Debug, PartialEq, Eq, Structural)]
pub enum Button {
    B1,
    B2,
    B3,
    B4,
    /// Not a button of the appliance: the signal to stop it.
    Stop,
}

#[derive(Clone, Copy, Debug, PartialEq, Eq, Structural)]
pub enum Led {
    L1,
    L2,
    L3,
    L4,
}

/// One switching of an indicator.
#[derive(Clone, Copy, Debug, PartialEq, Eq, Structural)]
pub struct LedSwitch {
    pub led: Led,
    pub is_on: bool,
}

/// The output side of the hardware: the switchings asked of it, in the order in
/// which they were asked, until they are taken to be carried out.
pub struct RpiOutput {
    pending: Vec<LedSwitch>,
}

impl View for RpiOutput {
    type V = Seq<LedSwitch>;

    /// The switchings that are waiting, oldest first.
    closed spec fn view(&self) -> Seq<LedSwitch> {
        self.pending@
    }
}

/// The level that a sequence of switchings leaves an indicator at: that of the
/// last switching of it, or `None` where there is none.
pub open spec fn level_after(switches: Seq<LedSwitch>, led: Led) -> Option<bool>
    decreases switches.len(),
{
    if switches.len() == 0 {
        None
    } else if switches.last().led == led {
        Some(switches.last().is_on)
    } else {
        level_after(switches.drop_last(), led)
    }
}

impl RpiOutput {
    pub fn new() -> (rpi: RpiOutput)
        ensures
            rpi@ == Seq::<LedSwitch>::empty(),
    {
        RpiOutput { pending: Vec::new() }
    }

    /// Asks for an indicator to be switched on or off.
    pub fn switch_led(&mut self, led: Led, is_on: bool)
        ensures
            final(self)@ == old(self)@.push(LedSwitch { led, is_on }),
    {
        self.pending.push(LedSwitch { led, is_on });
    }

    /// Hands out the switchings that are waiting, oldest first, and leaves none.
    pub fn take_pending(&mut self) -> (switches: Vec<LedSwitch>)
        ensures
            switches@ == old(self)@,
            final(self)@ == Seq::<LedSwitch>::empty(),
    {
        let mut switches: Vec<LedSwitch> = Vec::new();
        std::mem::swap(&mut switches, &mut self.pending);
        switches
    }
}

/// Whether a trigger at `now` counts, `last_trigger` being the last that
/// counted: it does once `DEBOUNCE_DELAY` has passed, and is then the last.
pub fn debounce(last_trigger: &mut Instant, now: Instant) -> (survives: bool)
    ensures
        survives == (now.since(*old(last_trigger)) >= DEBOUNCE_DELAY),
        *final(last_trigger) == if survives {
            now
        } else {
            *old(last_trigger)
        },
{
    let gap: u64 = now.duration_since(*last_trigger);
    if gap >= DEBOUNCE_DELAY {
        *last_trigger = now;
        true
    } else {
        false
    }
}

/// The pin that drives an indicator.
pub fn led_pin(led: Led) -> (pin: u8)
    ensures
        pin == match led {
            Led::L1 => PIN_LED_1,
            Led::L2 => PIN_LED_2,
            Led::L3 => PIN_LED_3,
            Led::L4 => PIN_LED_4,
        },
{
    match led {
        Led::L1 => PIN_LED_1,
        Led::L2 => PIN_LED_2,
        Led::L3 => PIN_LED_3,
        Led::L4 => PIN_LED_4,
    }
}

/// The button that a pin is wired to, if any.
pub open spec fn button_at(pin: u8) -> Option<Button> {
    if pin == PIN_BUTTON_1 {
        Some(Button::B1)
    } else if pin == PIN_BUTTON_2 {
        Some(Button::B2)
    } else if pin == PIN_BUTTON_3 {
        Some(Button::B3)
    } else if pin == PIN_BUTTON_4 {
        Some(Button::B4)
    } else {
        None
    }
}

/// The button that a pin is wired to, if any.
pub fn button_for_pin(pin: u8) -> (button: Option<Button>)
    ensures
        button == button_at(pin),
{
    if pin == PIN_BUTTON_1 {
        Some(Button::B1)
    } else if pin == PIN_BUTTON_2 {
        Some(Button::B2)
    } else if pin == PIN_BUTTON_3 {
        Some(Button::B3)
    } else if pin == PIN_BUTTON_4 {
        Some(Button::B4)
    } else {
        None
    }
}

/// When each of the four buttons last gave a press that counted.
#[derive(Clone, Copy, Debug, PartialEq, Eq, Structural)]
pub struct RealRpiInput {
    pub last_trigger_1: Instant,
    pub last_trigger_2: Instant,
    pub last_trigger_3: Instant,
    pub last_trigger_4: Instant,
}

impl RealRpiInput {
    /// The instant at which `button` last gave a press that counted. The stop
    /// signal is no button with a pin, and has none.
    pub open spec fn last_trigger(self, button: Button) -> Option<Instant> {
        match button {
            Button::B1 => Some(self.last_trigger_1),
            Button::B2 => Some(self.last_trigger_2),
            Button::B3 => Some(self.last_trigger_3),
            Button::B4 => Some(self.last_trigger_4),
            Button::Stop => None,
        }
    }

    /// The state in which `button` last counted at `now`, the others as before.
    pub open spec fn with_trigger(self, button: Button, now: Instant) -> RealRpiInput {
        match button {
            Button::B1 => RealRpiInput { last_trigger_1: now, ..self },
            Button::B2 => RealRpiInput { last_trigger_2: now, ..self },
            Button::B3 => RealRpiInput { last_trigger_3: now, ..self },
            Button::B4 => RealRpiInput { last_trigger_4: now, ..self },
            Button::Stop => self,
        }
    }

    /// Whether an interrupt on `pin` at `now` is a press that counts.
    pub open spec fn counts(self, pin: u8, now: Instant) -> bool {
        &&& button_at(pin) matches Some(button)
        &&& self.last_trigger(button) matches Some(last)
        &&& now.since(last) >= DEBOUNCE_DELAY
    }

    /// All four buttons last counted at `now`.
    pub fn new(now: Instant) -> (input: RealRpiInput)
        ensures
            input == (RealRpiInput {
                last_trigger_1: now,
                last_trigger_2: now,
                last_trigger_3: now,
                last_trigger_4: now,
            }),
    {
        RealRpiInput {
            last_trigger_1: now,
            last_trigger_2: now,
            last_trigger_3: now,
            last_trigger_4: now,
        }
    }

    /// Takes an interrupt on a button's pin at `now`: the button, if the press
    /// counts, which is then its last; `None` for a bounce, which changes nothing.
    pub fn button_press(&mut self, pin: u8, now: Instant) -> (pressed: Option<Button>)
        requires
            button_at(pin) is Some,
        ensures
            pressed == if old(self).counts(pin, now) {
                button_at(pin)
            } else {
                None
            },
            *final(self) == if old(self).counts(pin, now) {
                old(self).with_trigger(button_at(pin)->0, now)
            } else {
                *old(self)
            },
    {
        let (button, survives_debounce) = if pin == PIN_BUTTON_1 {
            (Button::B1, debounce(&mut self.last_trigger_1, now))
        } else if pin == PIN_BUTTON_2 {
            (Button::B2, debounce(&mut self.last_trigger_2, now))
        } else if pin == PIN_BUTTON_3 {
            (Button::B3, debounce(&mut self.last_trigger_3, now))
        } else {
            (Button::B4, debounce(&mut self.last_trigger_4, now))
        };
        if survives_debounce {
            Some(button)
        } else {
            None
        }
    }
}

/// What a byte typed at the stand-in for the buttons means: the digits 1 to 4
/// are the buttons, `q` stops the appliance, any other byte means nothing.
pub fn button_for_key(key: u8) -> (button: Option<Button>)
    ensures
        button == if key == 49 {
            Some(Button::B1)
        } else if key == 50 {
            Some(Button::B2)
        } else if key == 51 {
            Some(Button::B3)
        } else if key == 52 {
            Some(Button::B4)
        } else if key == 113 {
            Some(Button::Stop)
        } else {
            None
        },
{
    match key {
        49 => Some(Button::B1),
        50 => Some(Button::B2),
        51 => Some(Button::B3),
        52 => Some(Button::B4),
        113 => Some(Button::Stop),
        _ => None,
    }
}

} // verus!
