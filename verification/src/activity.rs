//! The chores that the appliance reminds of.

use vstd::prelude::*;

verus! {

/// A chore that a schedule can bring up.
#[derive(Clone, Copy, Debug, PartialEq, Eq, Structural)]
pub enum Activity {
    TakePills,
    TakePillsReminder,
    WaterPlants,
    I,
}

} // verus!
