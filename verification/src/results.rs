//! Per-timestep result records and the append-only result timeline.

use vstd::prelude::*;
use crate::instant::Instant;
use crate::state::StateElement;
use crate::weather::WeatherSample;

verus! {

/// How the forecast classifies the occupant's situation.
#[derive(Clone, Copy, PartialEq, Eq, Structural, Debug)]
pub enum ComfortStatus {
    /// The comfort quantity lies below the band the occupant aims for.
    TooCold,
    /// The comfort quantity is where the occupant wants it.
    Comfortable,
    /// The comfort quantity lies above the band the occupant aims for.
    TooHot,
}

/// What an attending occupant concluded in one timestep: the forecast
/// outcome, the projected outcome of acting, and whether the occupant
/// committed a change into the real state.
#[derive(Clone, Copy, PartialEq, Eq, Structural, Debug)]
pub struct DecisionRecord {
    /// Comfort metric forecast for the case where nothing changes.
    pub current_comfort: i64,
    /// The forecast's classification of the current situation.
    pub current_status: ComfortStatus,
    /// Comfort metric projected for the case where the occupant acts.
    pub potential_comfort: i64,
    /// True when the occupant mutated the real state this timestep.
    pub committed: bool,
}

/// One record of the result timeline, immutable once appended. The snapshot
/// holds the state as it stood after the march and after the decision
/// protocol of its timestep.
pub struct TimeStepResults {
    /// The instant this timestep simulated.
    pub timestep_start: Instant,
    /// Snapshot of all state elements at the end of the timestep.
    pub state_elements: Vec<StateElement>,
    /// The weather forcing used for this timestep.
    pub weather: WeatherSample,
    /// The occupant's decision record; absent when the occupant skipped the
    /// timestep.
    pub agent_record: Option<DecisionRecord>,
}

/// The ordered, append-only sequence of per-timestep records produced by one
/// run; insertion order is simulation order.
pub struct SimulationResults {
    steps: Vec<TimeStepResults>,
}

impl View for SimulationResults {
    type V = Seq<TimeStepResults>;

    closed spec fn view(&self) -> Seq<TimeStepResults> {
        self.steps@
    }
}

impl SimulationResults {
    /// An empty timeline.
    pub fn new() -> (r: SimulationResults)
        ensures
            r@ == Seq::<TimeStepResults>::empty(),
    {
        SimulationResults { steps: Vec::new() }
    }

    /// Number of records accumulated so far.
    pub fn len(&self) -> (r: usize)
        ensures
            r == self@.len(),
    {
        self.steps.len()
    }

    /// The record of timestep `idx`.
    pub fn get(&self, idx: usize) -> (r: &TimeStepResults)
        requires
            idx < self@.len(),
        ensures
            *r == self@[idx as int],
    {
        &self.steps[idx]
    }

    /// Appends one record; earlier records are never touched.
    pub fn push(&mut self, record: TimeStepResults)
        ensures
            final(self)@ == old(self)@.push(record),
    {
        self.steps.push(record);
    }
}

} // verus!
