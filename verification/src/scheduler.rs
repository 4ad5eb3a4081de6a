//! The scheduler: a list of jobs, each with a schedule, and the rule by which a
//! tick fires the jobs that have come due.

use crate::activity::Activity;
use crate::calendar::{DateTime, Duration};
use crate::schedule::Schedule;
use vstd::prelude::*;

verus! {

/// What a job is built from: a schedule, the activity it brings up, and how late
/// the activity may still be brought up.
#[derive(Clone, Copy, Debug, PartialEq, Eq, Structural)]
pub struct ScheduledJobSpec {
    schedule: Schedule,
    activity: Activity,
    grace_period: Duration,
}

impl ScheduledJobSpec {
    #[verifier::type_invariant]
    pub closed spec fn wf(self) -> bool {
        self.schedule.wf() && self.grace_period.wf()
    }

    pub closed spec fn spec_schedule(&self) -> Schedule {
        self.schedule
    }

    pub closed spec fn spec_activity(&self) -> Activity {
        self.activity
    }

    pub closed spec fn spec_grace_period(&self) -> Duration {
        self.grace_period
    }

    #[verifier::when_used_as_spec(spec_schedule)]
    pub fn schedule(&self) -> (schedule: Schedule)
        ensures
            schedule == self.schedule(),
    {
        self.schedule
    }

    #[verifier::when_used_as_spec(spec_activity)]
    pub fn activity(&self) -> (activity: Activity)
        ensures
            activity == self.activity(),
    {
        self.activity
    }

    /// How late the activity may still be brought up.
    #[verifier::when_used_as_spec(spec_grace_period)]
    pub fn grace_period(&self) -> (grace_period: Duration)
        ensures
            grace_period == self.grace_period(),
    {
        self.grace_period
    }

    /// The job that this description gives at `now`: its first trigger is the
    /// schedule's next after `now`.
    pub open spec fn job_at(self, now: DateTime) -> Job {
        Job::of(self.schedule().next_trigger(now), self.schedule(), self.activity(), self.grace_period())
    }

    pub fn new(schedule: Schedule, activity: Activity, grace_period: Duration) -> (spec: Self)
        ensures
            spec.wf(),
            spec.schedule() == schedule,
            spec.activity() == activity,
            spec.grace_period() == grace_period,
    {
        proof {
            use_type_invariant(grace_period);
            match schedule {
                Schedule::Daily(daily) => {
                    use_type_invariant(daily);
                },
                Schedule::Weekly(weekly) => {
                    use_type_invariant(weekly);
                },
            }
        }
        Self { schedule, activity, grace_period }
    }
}

/// A scheduled activity and the instant at which it next comes due.
#[derive(Clone, Copy, Debug, PartialEq, Eq, Structural)]
pub struct Job {
    next_trigger: DateTime,
    schedule: Schedule,
    activity: Activity,
    grace_period: Duration,
}

impl Job {
    #[verifier::type_invariant]
    pub closed spec fn wf(self) -> bool {
        self.next_trigger.wf() && self.schedule.wf() && self.grace_period.wf()
    }

    pub closed spec fn of(
        next_trigger: DateTime,
        schedule: Schedule,
        activity: Activity,
        grace_period: Duration,
    ) -> Job {
        Job { next_trigger, schedule, activity, grace_period }
    }

    pub closed spec fn spec_next_trigger(&self) -> DateTime {
        self.next_trigger
    }

    pub closed spec fn spec_schedule(&self) -> Schedule {
        self.schedule
    }

    pub closed spec fn spec_activity(&self) -> Activity {
        self.activity
    }

    pub closed spec fn spec_grace_period(&self) -> Duration {
        self.grace_period
    }

    /// The instant at which the job next comes due.
    #[verifier::when_used_as_spec(spec_next_trigger)]
    pub fn next_trigger(&self) -> (next_trigger: DateTime)
        ensures
            next_trigger == self.next_trigger(),
    {
        self.next_trigger
    }

    #[verifier::when_used_as_spec(spec_schedule)]
    pub fn schedule(&self) -> (schedule: Schedule)
        ensures
            schedule == self.schedule(),
    {
        self.schedule
    }

    #[verifier::when_used_as_spec(spec_activity)]
    pub fn activity(&self) -> (activity: Activity)
        ensures
            activity == self.activity(),
    {
        self.activity
    }

    /// How late the activity may still be brought up.
    #[verifier::when_used_as_spec(spec_grace_period)]
    pub fn grace_period(&self) -> (grace_period: Duration)
        ensures
            grace_period == self.grace_period(),
    {
        self.grace_period
    }

    /// The parts of a job made of four parts.
    pub proof fn lemma_of(
        next_trigger: DateTime,
        schedule: Schedule,
        activity: Activity,
        grace_period: Duration,
    )
        ensures
            Job::of(next_trigger, schedule, activity, grace_period).next_trigger() == next_trigger,
            Job::of(next_trigger, schedule, activity, grace_period).schedule() == schedule,
            Job::of(next_trigger, schedule, activity, grace_period).activity() == activity,
            Job::of(next_trigger, schedule, activity, grace_period).grace_period() == grace_period,
    {
    }

    /// Whether the job missed its window: `now` is later than the trigger by more
    /// than the grace period.
    pub open spec fn lapsed(self, now: DateTime) -> bool {
        now.timeline_nanos() - self.next_trigger().timeline_nanos()
            > self.grace_period().total_nanos()
    }

    /// Whether a tick at `now` fires the job: the trigger has come and the grace
    /// period has not run out.
    pub open spec fn fires(self, now: DateTime) -> bool {
        !self.lapsed(now) && now.timeline_nanos() >= self.next_trigger().timeline_nanos()
    }

    /// Whether a tick at `now` works out a new trigger for the job.
    pub open spec fn recomputes(self, now: DateTime) -> bool {
        self.lapsed(now) || self.fires(now)
    }

    /// Whether a tick at `now` can be carried out on the job.
    pub open spec fn can_tick(self, now: DateTime) -> bool {
        self.recomputes(now) ==> self.schedule().supports(now)
    }

    /// The job after a tick at `now`: with its next trigger after `now` where it
    /// fired or lapsed, unchanged where it is not due yet.
    pub open spec fn after_tick(self, now: DateTime) -> Job {
        if self.recomputes(now) {
            Job::of(
                self.schedule().next_trigger(now),
                self.schedule(),
                self.activity(),
                self.grace_period(),
            )
        } else {
            self
        }
    }

    /// What a tick at `now` returns: the activity where the job fires.
    pub open spec fn fired(self, now: DateTime) -> Option<Activity> {
        if self.fires(now) {
            Some(self.activity())
        } else {
            None
        }
    }

    fn is_lapsed(&self, now: DateTime) -> (lapsed: bool)
        ensures
            lapsed == self.lapsed(now),
    {
        proof {
            use_type_invariant(self);
            use_type_invariant(now);
            now.lemma_timeline_range();
            self.next_trigger.lemma_timeline_range();
        }
        now.to_timeline_nanos() - self.next_trigger.to_timeline_nanos()
            > self.grace_period.to_total_nanos()
    }

    /// Whether `tick` can be called at `now`.
    pub fn is_tickable(&self, now: DateTime) -> (tickable: bool)
        ensures
            tickable == self.can_tick(now),
    {
        if self.is_lapsed(now) || now.is_at_or_after(&self.next_trigger) {
            self.schedule.is_supported(now)
        } else {
            true
        }
    }

    /// Carries out one tick at `now`. A job that missed its window by more than
    /// the grace period gets its next trigger and does not fire; a job that is
    /// due gets its next trigger and fires; another job is left as it is.
    pub fn tick(&mut self, now: DateTime) -> (fired: Option<Activity>)
        requires
            old(self).can_tick(now),
        ensures
            *final(self) == old(self).after_tick(now),
            fired == old(self).fired(now),
    {
        proof {
            use_type_invariant(&*self);
        }
        if self.is_lapsed(now) {
            self.next_trigger = self.schedule.calculate_next_trigger(now);
            None
        } else if now.is_at_or_after(&self.next_trigger) {
            self.next_trigger = self.schedule.calculate_next_trigger(now);
            Some(self.activity)
        } else {
            None
        }
    }
}

impl Job {
    /// Whether a second tick at `now` fires the job again: the job fires at `now`,
    /// `now` is itself a trigger of its weekly schedule, so that the next trigger
    /// is `now` once more, and the grace period is not negative.
    pub open spec fn fires_again(self, now: DateTime) -> bool {
        &&& self.fires(now)
        &&& self.schedule().is_trigger(now)
        &&& self.grace_period().total_nanos() >= 0
    }

    /// A tick keeps a job valid, and a second tick at the same instant can be
    /// carried out where the first could.
    pub proof fn lemma_after_tick_wf(self, now: DateTime)
        requires
            self.wf(),
            now.wf(),
            self.can_tick(now),
        ensures
            self.after_tick(now).wf(),
            self.after_tick(now).can_tick(now),
            self.after_tick(now).schedule() == self.schedule(),
            self.after_tick(now).activity() == self.activity(),
            self.after_tick(now).grace_period() == self.grace_period(),
    {
        if self.recomputes(now) {
            self.schedule.lemma_next_trigger_not_earlier(now);
        }
    }

    /// The grace period is the last lateness at which a job still fires: a tick
    /// within it, from the trigger on, fires the job; a tick any later does not,
    /// and works out the next trigger all the same.
    pub proof fn lemma_grace_period_bounds_firing(self, now: DateTime)
        ensures
            self.fires(now) <==> 0 <= now.timeline_nanos() - self.next_trigger().timeline_nanos()
                <= self.grace_period().total_nanos(),
            now.timeline_nanos() - self.next_trigger().timeline_nanos()
                > self.grace_period().total_nanos() ==> !self.fires(now) && self.recomputes(now),
    {
    }

    /// With a grace period that is not negative, a tick never moves a trigger
    /// back: a job that fired or lapsed at `now` has its next trigger at `now`
    /// or after it.
    pub proof fn lemma_tick_moves_trigger_forward(self, now: DateTime)
        requires
            self.wf(),
            now.wf(),
            self.can_tick(now),
            self.grace_period().total_nanos() >= 0,
        ensures
            self.after_tick(now).next_trigger().timeline_nanos()
                >= self.next_trigger().timeline_nanos(),
            self.recomputes(now) ==> self.after_tick(now).next_trigger().timeline_nanos()
                >= now.timeline_nanos(),
    {
        if self.recomputes(now) {
            self.schedule.lemma_next_trigger_not_earlier(now);
        }
    }

    /// Two ticks in a row at one instant fire a job at most once: the second
    /// finds the trigger moved past `now`. Left out are the jobs that
    /// `fires_again` describes, and no others.
    pub proof fn lemma_tick_twice_fires_at_most_once(self, now: DateTime)
        requires
            self.wf(),
            now.wf(),
            self.can_tick(now),
            !self.fires_again(now),
        ensures
            !(self.fires(now) && self.after_tick(now).fires(now)),
    {
        if self.recomputes(now) {
            self.schedule.lemma_next_trigger_not_earlier(now);
            DateTime::lemma_timeline_order(now, self.schedule.next_trigger(now));
        }
    }

    /// A job that `fires_again` describes does fire at both of two ticks in a
    /// row at one instant: its weekly schedule gives `now` as the trigger after
    /// `now`.
    pub proof fn lemma_fires_again_fires_twice(self, now: DateTime)
        requires
            self.wf(),
            now.wf(),
            self.can_tick(now),
            self.fires_again(now),
        ensures
            self.fires(now),
            self.after_tick(now).fires(now),
            self.after_tick(now).next_trigger() == now,
    {
        self.schedule.lemma_next_trigger_not_earlier(now);
    }
}

/// Two ticks in a row at one instant fire each job at most once, and the second
/// tick can be carried out where the first could. Left out are lists with a job
/// that `fires_again` describes.
pub proof fn lemma_tick_twice_fires_each_job_at_most_once(jobs: Seq<Job>, now: DateTime)
    requires
        now.wf(),
        forall|i: int| 0 <= i < jobs.len() ==> (#[trigger] jobs[i]).wf(),
        all_can_tick(jobs, now),
        forall|i: int| 0 <= i < jobs.len() ==> !(#[trigger] jobs[i]).fires_again(now),
    ensures
        all_can_tick(jobs_after_tick(jobs, now), now),
        forall|i: int|
            0 <= i < jobs.len() ==> !((#[trigger] jobs[i]).fires(now) && jobs_after_tick(
                jobs,
                now,
            )[i].fires(now)),
{
    assert forall|i: int| 0 <= i < jobs.len() implies (#[trigger] jobs_after_tick(
        jobs,
        now,
    )[i]).can_tick(now) by {
        jobs[i].lemma_after_tick_wf(now);
    }
    assert forall|i: int| 0 <= i < jobs.len() implies !((#[trigger] jobs[i]).fires(now)
        && jobs_after_tick(jobs, now)[i].fires(now)) by {
        jobs[i].lemma_tick_twice_fires_at_most_once(now);
    }
}

/// The activities that a tick at `now` fires among `jobs`, in the order of the
/// jobs.
pub open spec fn fired_activities(jobs: Seq<Job>, now: DateTime) -> Seq<Activity>
    decreases jobs.len(),
{
    if jobs.len() == 0 {
        Seq::empty()
    } else {
        let before = fired_activities(jobs.drop_last(), now);
        match jobs.last().fired(now) {
            Some(activity) => before.push(activity),
            None => before,
        }
    }
}

/// The jobs after a tick at `now`.
pub open spec fn jobs_after_tick(jobs: Seq<Job>, now: DateTime) -> Seq<Job> {
    Seq::new(jobs.len(), |i: int| jobs[i].after_tick(now))
}

/// Whether a tick at `now` can be carried out on every job.
pub open spec fn all_can_tick(jobs: Seq<Job>, now: DateTime) -> bool {
    forall|i: int| 0 <= i < jobs.len() ==> (#[trigger] jobs[i]).can_tick(now)
}

/// Whether every schedule among the descriptions supports `now`.
pub open spec fn all_support(job_specs: Seq<ScheduledJobSpec>, now: DateTime) -> bool {
    forall|i: int| 0 <= i < job_specs.len() ==> (#[trigger] job_specs[i]).schedule().supports(now)
}

/// The jobs that a list of descriptions gives at `now`, in the order of the list.
pub open spec fn jobs_at(job_specs: Seq<ScheduledJobSpec>, now: DateTime) -> Seq<Job> {
    Seq::new(job_specs.len(), |i: int| job_specs[i].job_at(now))
}

/// A set of recurring jobs.
pub struct Scheduler {
    jobs: Vec<Job>,
}

impl View for Scheduler {
    type V = Seq<Job>;

    /// The jobs, in the order of the descriptions they were built from.
    closed spec fn view(&self) -> Seq<Job> {
        self.jobs@
    }
}

impl Scheduler {
    /// The jobs, in the order of the descriptions they were built from.
    pub fn jobs(&self) -> (jobs: &Vec<Job>)
        ensures
            jobs@ == self@,
    {
        &self.jobs
    }

    /// A scheduler with one job for each description, each with its first
    /// trigger after `now`.
    pub fn new(now: DateTime, job_specs: &[ScheduledJobSpec]) -> (scheduler: Self)
        requires
            all_support(job_specs@, now),
        ensures
            scheduler@ == jobs_at(job_specs@, now),
    {
        let mut jobs: Vec<Job> = Vec::new();
        let mut i: usize = 0;
        while i < job_specs.len()
            invariant
                i <= job_specs@.len(),
                all_support(job_specs@, now),
                jobs@ == jobs_at(job_specs@.take(i as int), now),
            decreases job_specs@.len() - i,
        {
            let spec = job_specs[i];
            proof {
                use_type_invariant(spec);
            }
            let next_trigger = spec.schedule.calculate_next_trigger(now);
            jobs.push(
                Job {
                    schedule: spec.schedule,
                    activity: spec.activity,
                    grace_period: spec.grace_period,
                    next_trigger,
                },
            );
            proof {
                assert(jobs@ =~= jobs_at(job_specs@.take(i + 1), now));
            }
            i = i + 1;
        }
        proof {
            assert(job_specs@.take(job_specs@.len() as int) =~= job_specs@);
        }
        Self { jobs }
    }

    /// As `new`, where every schedule supports `now`; else `None`.
    pub fn try_new(now: DateTime, job_specs: &[ScheduledJobSpec]) -> (scheduler: Option<Self>)
        ensures
            scheduler is Some <==> all_support(job_specs@, now),
            scheduler matches Some(s) ==> s@ == jobs_at(job_specs@, now),
    {
        let mut i: usize = 0;
        while i < job_specs.len()
            invariant
                i <= job_specs@.len(),
                forall|j: int| 0 <= j < i ==> (#[trigger] job_specs@[j]).schedule().supports(now),
            decreases job_specs@.len() - i,
        {
            if !job_specs[i].schedule.is_supported(now) {
                return None;
            }
            i = i + 1;
        }
        Some(Scheduler::new(now, job_specs))
    }

    /// Carries out one tick at `now` on every job, in order, and returns the
    /// activities of the jobs that fired, in that order.
    pub fn tick(&mut self, now: DateTime) -> (fired: Vec<Activity>)
        requires
            all_can_tick(old(self)@, now),
        ensures
            final(self)@ == jobs_after_tick(old(self)@, now),
            fired@ == fired_activities(old(self)@, now),
    {
        let mut fired: Vec<Activity> = Vec::new();
        let mut i: usize = 0;
        while i < self.jobs.len()
            invariant
                i <= self.jobs@.len(),
                self.jobs@.len() == old(self).jobs@.len(),
                all_can_tick(old(self).jobs@, now),
                forall|j: int| 0 <= j < i ==> self.jobs@[j] == old(self).jobs@[j].after_tick(now),
                forall|j: int| i <= j < self.jobs@.len() ==> self.jobs@[j] == old(self).jobs@[j],
                fired@ == fired_activities(old(self).jobs@.take(i as int), now),
            decreases self.jobs@.len() - i,
        {
            let mut job = self.jobs[i];
            let activity = job.tick(now);
            self.jobs.set(i, job);
            proof {
                assert(old(self).jobs@.take(i + 1).drop_last() =~= old(self).jobs@.take(i as int));
            }
            match activity {
                Some(activity) => {
                    fired.push(activity);
                },
                None => {},
            }
            i = i + 1;
        }
        proof {
            assert(old(self).jobs@.take(old(self).jobs@.len() as int) =~= old(self).jobs@);
            assert(self.jobs@ =~= jobs_after_tick(old(self).jobs@, now));
        }
        fired
    }

    /// Whether `tick` can be called at `now`.
    pub fn is_tickable(&self, now: DateTime) -> (tickable: bool)
        ensures
            tickable == all_can_tick(self@, now),
    {
        let mut i: usize = 0;
        while i < self.jobs.len()
            invariant
                i <= self.jobs@.len(),
                forall|j: int| 0 <= j < i ==> (#[trigger] self.jobs@[j]).can_tick(now),
            decreases self.jobs@.len() - i,
        {
            if !self.jobs[i].is_tickable(now) {
                return false;
            }
            i = i + 1;
        }
        true
    }

    /// As `tick`, where a tick at `now` can be carried out on every job; else
    /// `None`, and no job is changed.
    pub fn try_tick(&mut self, now: DateTime) -> (fired: Option<Vec<Activity>>)
        ensures
            fired is Some <==> all_can_tick(old(self)@, now),
            match fired {
                Some(activities) => final(self)@ == jobs_after_tick(old(self)@, now)
                    && activities@ == fired_activities(old(self)@, now),
                None => final(self)@ == old(self)@,
            },
    {
        if self.is_tickable(now) {
            Some(self.tick(now))
        } else {
            None
        }
    }
}

} // verus!
