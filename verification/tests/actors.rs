use std::str::FromStr;

use chrono::{Datelike, Timelike};
use fourbuttons::activity::Activity;
use fourbuttons::actor::control_actor::{
    reminder_text, ControlActor, ControlActorMessage, ControlCommand,
};
use fourbuttons::actor::led_actor::{LedActor, LedActorMessage};
use fourbuttons::actor::scheduler_actor::{SchedulerActor, SchedulerActorMessage};
use fourbuttons::application_state::ApplicationState;
use fourbuttons::calendar::{Date, DateTime, Duration, TimeOfDay};
use fourbuttons::clock::Instant;
use fourbuttons::ledstrategy::LedState;
use fourbuttons::rpi::{Button, Led, LedSwitch, RpiOutput};
use fourbuttons::schedule::{every_day, DailySchedule, Schedule, WeeklySchedule};
use fourbuttons::scheduler::{ScheduledJobSpec, Scheduler};

fn instant_of(text: &str) -> DateTime {
    let parsed = chrono::NaiveDateTime::from_str(text).unwrap();
    DateTime::new(
        Date::from_num_days_from_ce_opt(parsed.num_days_from_ce()).unwrap(),
        TimeOfDay::from_num_seconds_from_midnight_opt(
            parsed.num_seconds_from_midnight(),
            parsed.nanosecond(),
        )
        .unwrap(),
    )
}

fn control_actor() -> ControlActor {
    ControlActor::new(ApplicationState::blank())
}

fn led_messages(commands: &[ControlCommand]) -> Vec<LedActorMessage> {
    let mut messages = Vec::new();
    for command in commands {
        if let ControlCommand::SendLedStateChange { led, state } = command {
            messages.push(LedActorMessage::StateChange {
                led: *led,
                state: *state,
            });
        }
    }
    messages
}

fn stored(commands: &[ControlCommand]) -> Option<ApplicationState> {
    let mut last = None;
    for command in commands {
        if let ControlCommand::UpdateApplicationState(state) = command {
            last = Some(*state);
        }
    }
    last
}

#[test]
fn test_take_pills_activity() {
    let mut actor = control_actor();

    let now = instant_of("2020-01-01T09:00:00");
    let (commands, _) =
        actor.handle_message(ControlActorMessage::Activity(Activity::TakePills, now));

    assert_eq!(
        led_messages(&commands),
        vec![LedActorMessage::StateChange {
            led: Led::L1,
            state: LedState::On
        }]
    );

    assert_eq!(
        stored(&commands),
        Some(ApplicationState {
            take_pills_pending: Some(now),
            water_plants_pending: None,
            i_pending: None,
            clean_litter_tray_pending: None
        })
    );
}

#[test]
fn test_take_pills_resolution() {
    let mut actor = control_actor();

    let now = instant_of("2020-01-01T09:00:00");
    let (mut commands, _) =
        actor.handle_message(ControlActorMessage::Activity(Activity::TakePills, now));
    let (more, _) = actor.handle_message(ControlActorMessage::ButtonPress(Button::B1));
    commands.extend(more);

    assert_eq!(
        led_messages(&commands),
        vec![
            LedActorMessage::StateChange {
                led: Led::L1,
                state: LedState::On
            },
            LedActorMessage::StateChange {
                led: Led::L1,
                state: LedState::BlinkTemporary
            }
        ]
    );

    assert_eq!(stored(&commands), Some(ApplicationState::blank()));
}

#[test]
fn control_commands_come_in_order_led_first() {
    let mut actor = control_actor();
    let now = instant_of("2020-01-01T09:00:00");
    let (commands, stop) =
        actor.handle_message(ControlActorMessage::Activity(Activity::WaterPlants, now));
    let plants = ApplicationState {
        water_plants_pending: Some(now),
        ..ApplicationState::blank()
    };
    assert!(!stop);
    assert_eq!(
        commands,
        vec![
            ControlCommand::SendLedStateChange {
                led: Led::L4,
                state: LedState::On
            },
            ControlCommand::UpdateApplicationState(plants),
        ]
    );
    let later = instant_of("2020-01-02T06:00:00");
    let (commands, _) = actor.handle_message(ControlActorMessage::Activity(Activity::I, later));
    let both = ApplicationState {
        i_pending: Some(later),
        ..plants
    };
    assert_eq!(
        commands,
        vec![
            ControlCommand::SendLedStateChange {
                led: Led::L3,
                state: LedState::On
            },
            ControlCommand::UpdateApplicationState(both),
        ]
    );
    assert_eq!(actor.application_state(), both);

    // The second button has no chore: it blinks and the state is stored as it is.
    let (commands, stop) = actor.handle_message(ControlActorMessage::ButtonPress(Button::B2));
    assert!(!stop);
    assert_eq!(
        commands,
        vec![
            ControlCommand::SendLedStateChange {
                led: Led::L2,
                state: LedState::BlinkTemporary
            },
            ControlCommand::UpdateApplicationState(both),
        ]
    );
    let (commands, _) = actor.handle_message(ControlActorMessage::ButtonPress(Button::B4));
    assert_eq!(
        commands,
        vec![
            ControlCommand::SendLedStateChange {
                led: Led::L4,
                state: LedState::BlinkTemporary
            },
            ControlCommand::UpdateApplicationState(ApplicationState {
                i_pending: Some(later),
                ..ApplicationState::blank()
            }),
        ]
    );
    let (commands, _) = actor.handle_message(ControlActorMessage::ButtonPress(Button::B3));
    assert_eq!(stored(&commands), Some(ApplicationState::blank()));
}

#[test]
fn the_stop_signal_stops_the_control_actor_and_asks_for_nothing() {
    let mut actor = control_actor();
    let (commands, stop) = actor.handle_message(ControlActorMessage::ButtonPress(Button::Stop));
    assert!(stop);
    assert_eq!(commands, vec![]);
    assert_eq!(actor.application_state(), ApplicationState::blank());
}

#[test]
fn the_reminder_is_sent_only_while_the_pills_are_pending() {
    let mut actor = control_actor();
    let now = instant_of("2020-01-01T11:00:00");
    let reminder = ControlActorMessage::Activity(Activity::TakePillsReminder, now);
    assert_eq!(actor.handle_message(reminder), (vec![], false));

    actor.handle_message(ControlActorMessage::Activity(
        Activity::TakePills,
        instant_of("2020-01-01T06:00:00"),
    ));
    assert_eq!(
        actor.handle_message(reminder),
        (vec![ControlCommand::SendReminderEmail], false)
    );
    assert!(!ControlCommand::SendReminderEmail.is_required());
    assert!(ControlCommand::UpdateApplicationState(ApplicationState::blank()).is_required());
    assert!(ControlCommand::SendLedStateChange {
        led: Led::L1,
        state: LedState::On
    }
    .is_required());
    assert_eq!(reminder_text(), "Did you forget to take your pills you fool");

    actor.handle_message(ControlActorMessage::ButtonPress(Button::B1));
    assert_eq!(actor.handle_message(reminder), (vec![], false));
}

#[test]
fn startup_lights_what_is_pending() {
    let now = instant_of("2020-01-01T09:00:00");
    let mut actor = control_actor();
    assert_eq!(actor.startup(), vec![]);

    let mut actor = ControlActor::new(ApplicationState {
        take_pills_pending: Some(now),
        water_plants_pending: Some(now),
        i_pending: Some(now),
        clean_litter_tray_pending: Some(now),
    });
    let on = |led| ControlCommand::SendLedStateChange {
        led,
        state: LedState::On,
    };
    assert_eq!(actor.startup(), vec![on(Led::L1), on(Led::L4), on(Led::L3)]);

    let mut actor = ControlActor::new(ApplicationState {
        i_pending: Some(now),
        ..ApplicationState::blank()
    });
    assert_eq!(actor.startup(), vec![on(Led::L3)]);
}

#[test]
fn the_led_actor_switches_all_off_then_follows_its_messages() {
    let mut actor = LedActor::new(RpiOutput::new());
    actor.startup();
    let off = |led| LedSwitch { led, is_on: false };
    assert_eq!(
        actor.take_switches(),
        vec![off(Led::L1), off(Led::L2), off(Led::L3), off(Led::L4)]
    );
    let t0 = Instant::from_nanos(5_000_000_000);
    let stop = actor.handle_message(
        LedActorMessage::StateChange {
            led: Led::L1,
            state: LedState::BlinkTemporary,
        },
        t0,
    );
    assert!(!stop);
    assert_eq!(
        actor.take_switches(),
        vec![LedSwitch {
            led: Led::L1,
            is_on: true
        }]
    );
    // The instant of a tick is the one that the message brings.
    let tick = LedActorMessage::Tick(Instant::from_nanos(5_100_000_000));
    assert!(!actor.handle_message(tick, Instant::from_nanos(9_000_000_000)));
    assert_eq!(actor.take_switches(), vec![off(Led::L1)]);
    actor.handle_message(
        LedActorMessage::Tick(Instant::from_nanos(6_000_000_000)),
        t0,
    );
    assert_eq!(actor.take_switches(), vec![off(Led::L1)]);
    actor.handle_message(
        LedActorMessage::Tick(Instant::from_nanos(6_100_000_000)),
        t0,
    );
    assert_eq!(actor.take_switches(), vec![]);
}

#[test]
fn the_scheduler_actor_passes_on_what_fired() {
    let schedule = |time: TimeOfDay| Schedule::Daily(DailySchedule::new(time, every_day()));
    let six = TimeOfDay::from_hms_opt(6, 0, 0).unwrap();
    let specs = [
        ScheduledJobSpec::new(schedule(six), Activity::TakePills, Duration::hours(1)),
        ScheduledJobSpec::new(
            Schedule::Weekly(WeeklySchedule::new(
                instant_of("2020-01-02T00:00:00").date(),
                six,
                1,
            )),
            Activity::I,
            Duration::hours(1),
        ),
    ];
    let scheduler = Scheduler::try_new(instant_of("2020-01-02T05:00:00"), &specs).unwrap();
    let mut actor = SchedulerActor::new(scheduler);
    actor.startup();
    let now = instant_of("2020-01-02T05:30:00");
    assert_eq!(
        actor.handle_message(SchedulerActorMessage::Tick, now),
        (vec![], false)
    );
    let now = instant_of("2020-01-02T06:00:05");
    assert_eq!(
        actor.handle_message(SchedulerActorMessage::Tick, now),
        (
            vec![
                ControlActorMessage::Activity(Activity::TakePills, now),
                ControlActorMessage::Activity(Activity::I, now),
            ],
            false
        )
    );
    // The weekly job lapses a day before its anchor, which its schedule cannot take.
    let before = instant_of("2020-01-01T12:00:00");
    assert_eq!(
        actor.try_handle_message(SchedulerActorMessage::Tick, before),
        Some((vec![], false))
    );
    let now = instant_of("2020-01-03T06:30:00");
    assert_eq!(
        actor.try_handle_message(SchedulerActorMessage::Tick, now),
        Some((
            vec![ControlActorMessage::Activity(Activity::TakePills, now)],
            false
        ))
    );
}
