//! The appliance's actors, as what each decides: the state it keeps, and for
//! each message the commands that it has carried out.

pub mod control_actor;
pub mod led_actor;
pub mod scheduler_actor;
