//! A reminder appliance's core: recurring schedules, the scheduler that fires
//! them, the indicator blink state machines, and the decisions of the actors
//! and of their supervisor.

pub mod activity;
pub mod actor;
pub mod appdb;
pub mod application_state;
pub mod calendar;
pub mod clock;
pub mod db;
pub mod email;
pub mod ledstrategy;
pub mod reminders;
pub mod rpi;
pub mod schedule;
pub mod scheduler;
pub mod supervisor;
