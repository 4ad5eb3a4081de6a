//! The actor that keeps the pending chores: it takes activities and button
//! presses, and says what is to be shown, stored and sent.

use crate::activity::Activity;
use crate::application_state::ApplicationState;
use crate::calendar::DateTime;
use crate::ledstrategy::LedState;
use crate::rpi::{Button, Led};
use vstd::prelude::*;

verus! {

#[derive(Clone, Copy, Debug, PartialEq, Eq, Structural)]
pub enum ControlActorMessage {
    /// An activity has come due at the given instant.
    Activity(Activity, DateTime),
    ButtonPress(Button),
}

/// Something that the control actor wants done. The commands of one message
/// are carried out in order.
#[derive(Clone, Copy, Debug, PartialEq, Eq, Structural)]
pub enum ControlCommand {
    /// Tell the indicator actor that `led` is to show `state`.
    SendLedStateChange { led: Led, state: LedState },
    /// Store the state.
    UpdateApplicationState(ApplicationState),
    /// Send the reminder that the pills have not been taken.
    SendReminderEmail,
}

impl ControlCommand {
    /// Whether the actor gives up where the command cannot be carried out. A
    /// reminder that cannot be sent is passed over.
    pub fn is_required(&self) -> (required: bool)
        ensures
            required == !(*self is SendReminderEmail),
    {
        match self {
            ControlCommand::SendReminderEmail => false,
            _ => true,
        }
    }
}

/// What the reminder email says.
pub fn reminder_text() -> (text: &'static str)
    ensures
        text@ == "Did you forget to take your pills you fool"@,
{
    "Did you forget to take your pills you fool"
}

/// The indicator that belongs to a button; the stop signal has none.
pub open spec fn led_of(button: Button) -> Option<Led> {
    match button {
        Button::B1 => Some(Led::L1),
        Button::B2 => Some(Led::L2),
        Button::B3 => Some(Led::L3),
        Button::B4 => Some(Led::L4),
        Button::Stop => None,
    }
}

/// The state after an activity has come due at `now`: the chore is pending
/// since `now`. The reminder changes nothing.
pub open spec fn state_after_activity(
    state: ApplicationState,
    activity: Activity,
    now: DateTime,
) -> ApplicationState {
    match activity {
        Activity::TakePills => ApplicationState { take_pills_pending: Some(now), ..state },
        Activity::WaterPlants => ApplicationState { water_plants_pending: Some(now), ..state },
        Activity::I => ApplicationState { i_pending: Some(now), ..state },
        Activity::TakePillsReminder => state,
    }
}

/// What an activity that has come due asks for: a chore lights its indicator
/// and the new state is stored; the reminder is sent only while the pills are
/// still pending.
pub open spec fn commands_for_activity(
    state: ApplicationState,
    activity: Activity,
    now: DateTime,
) -> Seq<ControlCommand> {
    let stored = ControlCommand::UpdateApplicationState(state_after_activity(state, activity, now));
    match activity {
        Activity::TakePills => seq![
            ControlCommand::SendLedStateChange { led: Led::L1, state: LedState::On },
            stored,
        ],
        Activity::WaterPlants => seq![
            ControlCommand::SendLedStateChange { led: Led::L4, state: LedState::On },
            stored,
        ],
        Activity::I => seq![
            ControlCommand::SendLedStateChange { led: Led::L3, state: LedState::On },
            stored,
        ],
        Activity::TakePillsReminder => if state.take_pills_pending is Some {
            seq![ControlCommand::SendReminderEmail]
        } else {
            Seq::empty()
        },
    }
}

/// The state after a button press: the chore of the button is no longer
/// pending. The second button and the stop signal have no chore.
pub open spec fn state_after_button(state: ApplicationState, button: Button) -> ApplicationState {
    match button {
        Button::B1 => ApplicationState { take_pills_pending: None, ..state },
        Button::B3 => ApplicationState { i_pending: None, ..state },
        Button::B4 => ApplicationState { water_plants_pending: None, ..state },
        Button::B2 | Button::Stop => state,
    }
}

/// What a button press asks for: the button's indicator blinks, and the new
/// state is stored. The stop signal asks for nothing.
pub open spec fn commands_for_button(state: ApplicationState, button: Button) -> Seq<
    ControlCommand,
> {
    match led_of(button) {
        Some(led) => seq![
            ControlCommand::SendLedStateChange { led, state: LedState::BlinkTemporary },
            ControlCommand::UpdateApplicationState(state_after_button(state, button)),
        ],
        None => Seq::empty(),
    }
}

/// What a start asks for: every chore that is pending lights its indicator
/// again, pills first, then plants, then the third.
pub open spec fn commands_for_startup(state: ApplicationState) -> Seq<ControlCommand> {
    let pills: Seq<ControlCommand> = if state.take_pills_pending is Some {
        seq![ControlCommand::SendLedStateChange { led: Led::L1, state: LedState::On }]
    } else {
        Seq::empty()
    };
    let plants: Seq<ControlCommand> = if state.water_plants_pending is Some {
        seq![ControlCommand::SendLedStateChange { led: Led::L4, state: LedState::On }]
    } else {
        Seq::empty()
    };
    let third: Seq<ControlCommand> = if state.i_pending is Some {
        seq![ControlCommand::SendLedStateChange { led: Led::L3, state: LedState::On }]
    } else {
        Seq::empty()
    };
    pills + plants + third
}

pub struct ControlActor {
    application_state: ApplicationState,
}

impl View for ControlActor {
    type V = ApplicationState;

    /// The chores that are pending.
    closed spec fn view(&self) -> ApplicationState {
        self.application_state
    }
}

impl ControlActor {
    pub fn new(application_state: ApplicationState) -> (actor: Self)
        ensures
            actor@ == application_state,
    {
        Self { application_state }
    }

    pub fn application_state(&self) -> (state: ApplicationState)
        ensures
            state == self@,
    {
        self.application_state
    }

    /// The state after a message.
    pub open spec fn state_after(state: ApplicationState, msg: ControlActorMessage)
        -> ApplicationState {
        match msg {
            ControlActorMessage::Activity(activity, now) => state_after_activity(
                state,
                activity,
                now,
            ),
            ControlActorMessage::ButtonPress(button) => state_after_button(state, button),
        }
    }

    /// What a message asks for.
    pub open spec fn commands_for(state: ApplicationState, msg: ControlActorMessage) -> Seq<
        ControlCommand,
    > {
        match msg {
            ControlActorMessage::Activity(activity, now) => commands_for_activity(
                state,
                activity,
                now,
            ),
            ControlActorMessage::ButtonPress(button) => commands_for_button(state, button),
        }
    }

    /// Takes an activity that has come due at `now`.
    pub fn handle_activity(&mut self, activity: Activity, now: DateTime) -> (commands: Vec<
        ControlCommand,
    >)
        ensures
            final(self)@ == state_after_activity(old(self)@, activity, now),
            commands@ == commands_for_activity(old(self)@, activity, now),
    {
        let mut commands: Vec<ControlCommand> = Vec::new();
        match activity {
            Activity::TakePills => {
                self.application_state.take_pills_pending = Some(now);
                commands.push(self.send_led_state_change(Led::L1, LedState::On));
                commands.push(ControlCommand::UpdateApplicationState(self.application_state));
            },
            Activity::WaterPlants => {
                self.application_state.water_plants_pending = Some(now);
                commands.push(self.send_led_state_change(Led::L4, LedState::On));
                commands.push(ControlCommand::UpdateApplicationState(self.application_state));
            },
            Activity::I => {
                self.application_state.i_pending = Some(now);
                commands.push(self.send_led_state_change(Led::L3, LedState::On));
                commands.push(ControlCommand::UpdateApplicationState(self.application_state));
            },
            Activity::TakePillsReminder => {
                if self.application_state.take_pills_pending.is_some() {
                    commands.push(ControlCommand::SendReminderEmail);
                }
            },
        }
        assert(commands@ =~= commands_for_activity(old(self)@, activity, now));
        commands
    }

    /// Takes a button press. Returns what is asked for, and whether the actor is
    /// to stop: it is on the stop signal alone.
    pub fn handle_button_press(&mut self, button: Button) -> (reaction: (
        Vec<ControlCommand>,
        bool,
    ))
        ensures
            final(self)@ == state_after_button(old(self)@, button),
            reaction.0@ == commands_for_button(old(self)@, button),
            reaction.1 == (button == Button::Stop),
    {
        let mut commands: Vec<ControlCommand> = Vec::new();
        let led = match button {
            Button::B1 => Led::L1,
            Button::B2 => Led::L2,
            Button::B3 => Led::L3,
            Button::B4 => Led::L4,
            Button::Stop => {
                return (commands, true);
            },
        };
        commands.push(self.send_led_state_change(led, LedState::BlinkTemporary));
        match button {
            Button::B1 => {
                self.application_state.take_pills_pending = None;
            },
            Button::B2 | Button::Stop => {},
            Button::B3 => {
                self.application_state.i_pending = None;
            },
            Button::B4 => {
                self.application_state.water_plants_pending = None;
            },
        };
        commands.push(ControlCommand::UpdateApplicationState(self.application_state));
        assert(commands@ =~= commands_for_button(old(self)@, button));
        (commands, false)
    }

    /// The command that tells the indicator actor of a change.
    pub fn send_led_state_change(&self, led: Led, state: LedState) -> (command: ControlCommand)
        ensures
            command == (ControlCommand::SendLedStateChange { led, state }),
    {
        ControlCommand::SendLedStateChange { led, state }
    }

    /// What is asked for before the first message: the indicators of the chores
    /// that are pending are lit again.
    pub fn startup(&mut self) -> (commands: Vec<ControlCommand>)
        ensures
            final(self)@ == old(self)@,
            commands@ == commands_for_startup(old(self)@),
    {
        let mut commands: Vec<ControlCommand> = Vec::new();
        if self.application_state.take_pills_pending.is_some() {
            commands.push(self.send_led_state_change(Led::L1, LedState::On));
        }
        if self.application_state.water_plants_pending.is_some() {
            commands.push(self.send_led_state_change(Led::L4, LedState::On));
        }
        if self.application_state.i_pending.is_some() {
            commands.push(self.send_led_state_change(Led::L3, LedState::On));
        }
        assert(commands@ =~= commands_for_startup(old(self)@));
        commands
    }

    /// Handles one message. Returns what is asked for, and whether the actor is
    /// to stop.
    pub fn handle_message(&mut self, msg: ControlActorMessage) -> (reaction: (
        Vec<ControlCommand>,
        bool,
    ))
        ensures
            final(self)@ == ControlActor::state_after(old(self)@, msg),
            reaction.0@ == ControlActor::commands_for(old(self)@, msg),
            reaction.1 == (msg == ControlActorMessage::ButtonPress(Button::Stop)),
    {
        match msg {
            ControlActorMessage::Activity(activity, now) => {
                let commands = self.handle_activity(activity, now);
                (commands, false)
            },
            ControlActorMessage::ButtonPress(button) => self.handle_button_press(button),
        }
    }
}

} // verus!
