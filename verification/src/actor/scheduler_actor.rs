//! The actor that asks the scheduler, at every tick, what has come due.

use crate::activity::Activity;
use crate::actor::control_actor::ControlActorMessage;
use crate::calendar::DateTime;
use crate::scheduler::{all_can_tick, fired_activities, jobs_after_tick, Job, Scheduler};
use vstd::prelude::*;

verus! {

#[derive(Clone, Copy, Debug, PartialEq, Eq, Structural)]
pub enum SchedulerActorMessage {
    Tick,
}

pub struct SchedulerActor {
    scheduler: Scheduler,
}

impl View for SchedulerActor {
    type V = Seq<Job>;

    /// The scheduler's jobs.
    closed spec fn view(&self) -> Seq<Job> {
        self.scheduler@
    }
}

/// The messages that tell the control actor of the activities that came due at
/// `now`, in their order.
pub open spec fn activity_messages(activities: Seq<Activity>, now: DateTime) -> Seq<
    ControlActorMessage,
> {
    Seq::new(activities.len(), |i: int| ControlActorMessage::Activity(activities[i], now))
}

impl SchedulerActor {
    pub fn new(scheduler: Scheduler) -> (actor: Self)
        ensures
            actor@ == scheduler@,
    {
        Self { scheduler }
    }

    /// Nothing is to be done before the first message.
    pub fn startup(&mut self)
        ensures
            final(self)@ == old(self)@,
    {
    }

    /// Handles one message at `now`: ticks the scheduler. Returns the messages
    /// for the control actor, one for each activity that fired, in order, and
    /// whether the actor is to stop, which it never is.
    pub fn handle_message(&mut self, msg: SchedulerActorMessage, now: DateTime) -> (reaction: (
        Vec<ControlActorMessage>,
        bool,
    ))
        requires
            all_can_tick(old(self)@, now),
        ensures
            final(self)@ == jobs_after_tick(old(self)@, now),
            reaction.0@ == activity_messages(fired_activities(old(self)@, now), now),
            !reaction.1,
    {
        let activities = self.scheduler.tick(now);
        let mut messages: Vec<ControlActorMessage> = Vec::new();
        let mut i: usize = 0;
        while i < activities.len()
            invariant
                i <= activities@.len(),
                messages@ == activity_messages(activities@.take(i as int), now),
            decreases activities@.len() - i,
        {
            messages.push(ControlActorMessage::Activity(activities[i], now));
            assert(messages@ =~= activity_messages(activities@.take(i + 1), now));
            i = i + 1;
        }
        assert(activities@.take(activities@.len() as int) =~= activities@);
        (messages, false)
    }

    /// As `handle_message`, where the scheduler can tick at `now`; else `None`,
    /// and nothing is changed.
    pub fn try_handle_message(&mut self, msg: SchedulerActorMessage, now: DateTime) -> (reaction:
        Option<(Vec<ControlActorMessage>, bool)>)
        ensures
            reaction is Some <==> all_can_tick(old(self)@, now),
            match reaction {
                Some(r) => final(self)@ == jobs_after_tick(old(self)@, now) && r.0@
                    == activity_messages(fired_activities(old(self)@, now), now) && !r.1,
                None => final(self)@ == old(self)@,
            },
    {
        if self.scheduler.is_tickable(now) {
            Some(self.handle_message(msg, now))
        } else {
            None
        }
    }
}

} // verus!
