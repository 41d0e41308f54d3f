//! A discrete-time building simulation driver.
//!
//! The library advances a shared mutable physical state through fixed time
//! increments, applies weather forcing through a physics model, and lets an
//! occupant agent speculatively evaluate — on an independent branch copy of
//! the state — whether intervening is worthwhile, committing the intervention
//! back into the real state only when the agent decides to act.

pub mod agent;
pub mod building;
pub mod driver;
pub mod instant;
pub mod physics;
pub mod results;
pub mod sequencer;
pub mod state;
pub mod weather;

pub use crate::driver::run;
