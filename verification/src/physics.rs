//! The physics model capability: advancing the physical state by one
//! timestep under weather forcing.

use vstd::prelude::*;
use crate::building::Building;
use crate::instant::Instant;
use crate::state::{same_shape, StateElement, StateStore};
use crate::weather::WeatherSample;

verus! {

/// Why a physics model refused to be built or to march.
#[derive(Clone, Copy, PartialEq, Eq, Structural, Debug)]
pub enum PhysicsError {
    /// The model cannot be constructed from the given configuration.
    InvalidConfiguration,
    /// A march ran into a numerical or physical inconsistency.
    NumericalDivergence,
}

/// A physics model is constructed once per run and then advances the state
/// store by one timestep per call. Construction and marching may fail; a
/// march that succeeds replaces the state by exactly
/// [`PhysicsModel::march_state`] and never changes the store's shape.
pub trait PhysicsModel: Sized {
    /// Whether a model can be built from this configuration.
    spec fn constructible(building: Building, s: Seq<StateElement>, n: usize) -> bool;

    /// The model that construction yields from this configuration.
    spec fn model_of(building: Building, s: Seq<StateElement>, n: usize) -> Self;

    /// Builds the model for a run with `n` substeps per hour.
    fn new(building: &Building, state: &StateStore, n: usize) -> (r: Result<Self, PhysicsError>)
        ensures
            r is Ok <==> Self::constructible(*building, state@, n),
            r matches Ok(m) ==> m == Self::model_of(*building, state@, n),
    ;

    /// Whether a march from this state under this forcing succeeds.
    spec fn march_ok(&self, t: Instant, w: WeatherSample, building: Building, s: Seq<StateElement>) -> bool;

    /// The state a successful march leaves behind.
    spec fn march_state(&self, t: Instant, w: WeatherSample, building: Building, s: Seq<StateElement>) -> Seq<StateElement>;

    /// Advances `state` in place by one timestep. On failure the state is
    /// left as it was.
    fn march(&self, t: Instant, w: &WeatherSample, building: &Building, state: &mut StateStore) -> (r: Result<(), PhysicsError>)
        requires
            t.wf(),
        ensures
            r is Ok <==> self.march_ok(t, *w, *building, old(state)@),
            r is Ok ==> final(state)@ == self.march_state(t, *w, *building, old(state)@),
            r is Ok ==> same_shape(final(state)@, old(state)@),
            r is Err ==> final(state)@ == old(state)@,
    ;
}

/// The state after one application of weather forcing: every physical
/// element takes the forcing temperature, bookkeeping elements are kept.
pub open spec fn weather_forced(s: Seq<StateElement>, w: WeatherSample) -> Seq<StateElement> {
    Seq::new(
        s.len(),
        |i: int| if s[i].physical {
            StateElement { value: w.dry_bulb_temperature, physical: true }
        } else {
            s[i]
        },
    )
}

/// Overwrites every physical element of `state` with the forcing
/// temperature, leaving bookkeeping elements unchanged.
fn apply_weather_forcing(state: &mut StateStore, w: &WeatherSample)
    ensures
        final(state)@ == weather_forced(old(state)@, *w),
        same_shape(final(state)@, old(state)@),
{
    let ghost orig = state@;
    let mut i: usize = 0;
    while i < state.len()
        invariant
            i <= orig.len(),
            state@.len() == orig.len(),
            forall|j: int| 0 <= j < i ==> state@[j] == weather_forced(orig, *w)[j],
            forall|j: int| i <= j < orig.len() ==> state@[j] == orig[j],
        decreases orig.len() - i,
    {
        if state.is_physical(i) {
            state.set_value(i, w.dry_bulb_temperature);
        }
        i = i + 1;
    }
    proof {
        assert(state@ =~= weather_forced(orig, *w));
    }
}

/// A deliberately simple model: each march relaxes every physical element
/// all the way to the outside dry-bulb temperature. It is built from any
/// configuration and never diverges.
#[derive(Clone, Copy, PartialEq, Eq, Structural, Debug)]
pub struct WeatherCoupledModel {}

impl PhysicsModel for WeatherCoupledModel {
    open spec fn constructible(building: Building, s: Seq<StateElement>, n: usize) -> bool {
        true
    }

    open spec fn model_of(building: Building, s: Seq<StateElement>, n: usize) -> Self {
        WeatherCoupledModel {}
    }

    fn new(building: &Building, state: &StateStore, n: usize) -> (r: Result<Self, PhysicsError>) {
        Ok(WeatherCoupledModel {})
    }

    open spec fn march_ok(&self, t: Instant, w: WeatherSample, building: Building, s: Seq<StateElement>) -> bool {
        true
    }

    open spec fn march_state(&self, t: Instant, w: WeatherSample, building: Building, s: Seq<StateElement>) -> Seq<StateElement> {
        weather_forced(s, w)
    }

    fn march(&self, t: Instant, w: &WeatherSample, building: &Building, state: &mut StateStore) -> (r: Result<(), PhysicsError>) {
        apply_weather_forcing(state, w);
        Ok(())
    }
}

/// Forcing temperatures at or above this bound make an [`UnstableModel`]
/// march diverge.
pub const DIVERGENCE_FORCING: i64 = 100_000;

/// Substep counts above this bound are rejected at [`UnstableModel`]
/// construction.
pub const MAX_STABLE_SUBSTEPS: usize = 60;

/// A model with the same marching rule as [`WeatherCoupledModel`] but with
/// explicit failure modes: construction is refused for substep counts beyond
/// its stability limit, and a march diverges under extreme forcing.
#[derive(Clone, Copy, PartialEq, Eq, Structural, Debug)]
pub struct UnstableModel {}

impl PhysicsModel for UnstableModel {
    open spec fn constructible(building: Building, s: Seq<StateElement>, n: usize) -> bool {
        n <= MAX_STABLE_SUBSTEPS
    }

    open spec fn model_of(building: Building, s: Seq<StateElement>, n: usize) -> Self {
        UnstableModel {}
    }

    fn new(building: &Building, state: &StateStore, n: usize) -> (r: Result<Self, PhysicsError>) {
        if n <= MAX_STABLE_SUBSTEPS {
            Ok(UnstableModel {})
        } else {
            Err(PhysicsError::InvalidConfiguration)
        }
    }

    open spec fn march_ok(&self, t: Instant, w: WeatherSample, building: Building, s: Seq<StateElement>) -> bool {
        w.dry_bulb_temperature < DIVERGENCE_FORCING
    }

    open spec fn march_state(&self, t: Instant, w: WeatherSample, building: Building, s: Seq<StateElement>) -> Seq<StateElement> {
        weather_forced(s, w)
    }

    fn march(&self, t: Instant, w: &WeatherSample, building: &Building, state: &mut StateStore) -> (r: Result<(), PhysicsError>) {
        if w.dry_bulb_temperature < DIVERGENCE_FORCING {
            apply_weather_forcing(state, w);
            Ok(())
        } else {
            Err(PhysicsError::NumericalDivergence)
        }
    }
}

} // verus!
