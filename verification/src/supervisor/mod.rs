//! The life of the actors' threads: what each thread does next, and what the
//! supervisor keeps of the threads it started.

pub mod runner;
pub mod supervisor;
