//! What the appliance remembers across restarts.

use crate::calendar::DateTime;
use vstd::prelude::*;

verus! {

/// Which chores are waiting to be done, each with the instant at which it came
/// up.
#[derive(Clone, Copy, Debug, PartialEq, Eq, Structural)]
pub struct ApplicationState {
    pub take_pills_pending: Option<DateTime>,
    pub water_plants_pending: Option<DateTime>,
    pub i_pending: Option<DateTime>,
    pub clean_litter_tray_pending: Option<DateTime>,
}

impl ApplicationState {
    /// The state in which nothing is waiting.
    pub open spec fn empty() -> ApplicationState {
        ApplicationState {
            take_pills_pending: None,
            water_plants_pending: None,
            i_pending: None,
            clean_litter_tray_pending: None,
        }
    }

    pub fn blank() -> (state: Self)
        ensures
            state == ApplicationState::empty(),
    {
        Self {
            take_pills_pending: None,
            water_plants_pending: None,
            i_pending: None,
            clean_litter_tray_pending: None,
        }
    }
}

} // verus!
