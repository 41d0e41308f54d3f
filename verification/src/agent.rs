//! The occupant agent capability set: attending, forecasting, inferring the
//! outcome of acting, and conditionally committing a change into the real
//! state.

use vstd::prelude::*;
use crate::building::Building;
use crate::instant::Instant;
use crate::physics::PhysicsModel;
use crate::results::ComfortStatus;
use crate::state::{same_shape, StateElement, StateStore};

verus! {

/// The capability set of an occupant agent, polymorphic over the physics
/// model it may consult while forecasting.
///
/// Each exec capability is pinned to a spec function of the same inputs, so
/// that a driver calling the agent knows exactly what the call returned and
/// what it did to the state it was handed. Only
/// [`OccupantAgent::behave_if_worth_it`] ever receives the real state, and
/// its contract guarantees that a declined action leaves that state
/// untouched.
pub trait OccupantAgent<M: PhysicsModel> {
    /// Whether the agent attends to the situation at `t` given the
    /// immediate satisfaction signal.
    spec fn attends(&self, t: Instant, satisfaction: i64) -> bool;

    /// The branch state the forecast leaves behind.
    spec fn forsee_state(&self, model: M, t: Instant, building: Building, s: Seq<StateElement>) -> Seq<StateElement>;

    /// The comfort metric the forecast reports for the case where nothing
    /// changes.
    spec fn forsee_comfort(&self, model: M, t: Instant, building: Building, s: Seq<StateElement>) -> i64;

    /// The forecast's classification of the current situation.
    spec fn forsee_status(&self, model: M, t: Instant, building: Building, s: Seq<StateElement>) -> ComfortStatus;

    /// The branch state the infer step leaves behind: the projection of
    /// what acting would do.
    spec fn infer_state(&self, model: M, t: Instant, building: Building, s: Seq<StateElement>, current_comfort: i64, current_status: ComfortStatus) -> Seq<StateElement>;

    /// The comfort metric projected for the case where the agent acts.
    spec fn infer_comfort(&self, model: M, t: Instant, building: Building, s: Seq<StateElement>, current_comfort: i64, current_status: ComfortStatus) -> i64;

    /// Whether the agent judges acting worthwhile.
    spec fn acts(&self, t: Instant, current_comfort: i64, potential_comfort: i64, s: Seq<StateElement>, potential: Seq<StateElement>) -> bool;

    /// The real state the agent leaves behind when it acts.
    spec fn act_state(&self, t: Instant, current_comfort: i64, potential_comfort: i64, s: Seq<StateElement>, potential: Seq<StateElement>) -> Seq<StateElement>;

    /// Decides whether the agent evaluates the situation this timestep.
    /// A pure query: no state is handed in, nothing can be mutated.
    fn attend(&self, t: Instant, satisfaction: i64) -> (r: bool)
        ensures
            r == self.attends(t, satisfaction),
    ;

    /// Forecasts what happens if nothing changes, driving the `branch`
    /// state through any look-ahead the agent wants; returns the forecast
    /// comfort metric and status. The branch may be mutated arbitrarily but
    /// keeps its shape.
    fn forsee(&self, t: Instant, building: &Building, model: &M, branch: &mut StateStore) -> (r: (i64, ComfortStatus))
        ensures
            final(branch)@ == self.forsee_state(*model, t, *building, old(branch)@),
            same_shape(final(branch)@, old(branch)@),
            r.0 == self.forsee_comfort(*model, t, *building, old(branch)@),
            r.1 == self.forsee_status(*model, t, *building, old(branch)@),
    ;

    /// Projects the expected outcome of acting, starting from a branch
    /// whose physical fields were reset to the real baseline; returns the
    /// potential comfort metric and leaves the potential branch state in
    /// `branch`.
    fn infer_expected_outcomes(&self, t: Instant, building: &Building, model: &M, branch: &mut StateStore, current_comfort: i64, current_status: ComfortStatus) -> (r: i64)
        ensures
            final(branch)@ == self.infer_state(*model, t, *building, old(branch)@, current_comfort, current_status),
            same_shape(final(branch)@, old(branch)@),
            r == self.infer_comfort(*model, t, *building, old(branch)@, current_comfort, current_status),
    ;

    /// Compares the two comfort metrics by the agent's own policy and, when
    /// acting is judged worthwhile, mutates the real `state` directly.
    /// Returns whether it acted; when it did not act, the real state is
    /// guaranteed untouched.
    fn behave_if_worth_it(&self, t: Instant, current_comfort: i64, potential_comfort: i64, state: &mut StateStore, potential: &StateStore) -> (r: bool)
        ensures
            r == self.acts(t, current_comfort, potential_comfort, old(state)@, potential@),
            r ==> final(state)@ == self.act_state(t, current_comfort, potential_comfort, old(state)@, potential@),
            !r ==> final(state)@ == old(state)@,
            same_shape(final(state)@, old(state)@),
    ;
}

/// The forecast drift a [`SetpointAgent`] applies: every physical value
/// inches up by one unit (saturating), bookkeeping values stay.
pub open spec fn drifted(s: Seq<StateElement>) -> Seq<StateElement> {
    Seq::new(
        s.len(),
        |i: int| if s[i].physical {
            StateElement {
                value: if s[i].value == i64::MAX { i64::MAX } else { (s[i].value + 1) as i64 },
                physical: true,
            }
        } else {
            s[i]
        },
    )
}

/// How a [`SetpointAgent`] classifies a comfort value against its setpoint.
pub open spec fn classify(comfort: i64, setpoint: i64) -> ComfortStatus {
    if comfort < setpoint { ComfortStatus::TooCold }
    else if comfort == setpoint { ComfortStatus::Comfortable }
    else { ComfortStatus::TooHot }
}

/// An occupant that always attends, forecasts a slow drift of the physical
/// fields, and — if acting is judged worthwhile — writes its setpoint into
/// one target state element of the real state.
#[derive(Clone, Copy, PartialEq, Eq, Structural, Debug)]
pub struct SetpointAgent {
    /// Index of the state element the agent writes when it acts.
    pub target_element: usize,
    /// The value the agent writes, and the comfort value it aims for.
    pub setpoint: i64,
    /// When true the agent always finds acting worthwhile; when false it
    /// acts only if the projected comfort strictly improves on the
    /// forecast one.
    pub always_act: bool,
}

impl SetpointAgent {
    /// The comfort metric the agent reads from a state: the value of the
    /// building's comfort element, or zero when the state has no such
    /// element.
    pub open spec fn comfort_read(self, building: Building, s: Seq<StateElement>) -> i64 {
        if building.comfort_element < s.len() {
            s[building.comfort_element as int].value
        } else {
            0
        }
    }

    /// The state left behind by writing the setpoint into the target
    /// element, if the state has that element.
    pub open spec fn with_setpoint(self, s: Seq<StateElement>) -> Seq<StateElement> {
        if self.target_element < s.len() {
            s.update(
                self.target_element as int,
                StateElement { value: self.setpoint, physical: s[self.target_element as int].physical },
            )
        } else {
            s
        }
    }
}

impl<M: PhysicsModel> OccupantAgent<M> for SetpointAgent {
    open spec fn attends(&self, t: Instant, satisfaction: i64) -> bool {
        true
    }

    open spec fn forsee_state(&self, model: M, t: Instant, building: Building, s: Seq<StateElement>) -> Seq<StateElement> {
        drifted(s)
    }

    open spec fn forsee_comfort(&self, model: M, t: Instant, building: Building, s: Seq<StateElement>) -> i64 {
        self.comfort_read(building, s)
    }

    open spec fn forsee_status(&self, model: M, t: Instant, building: Building, s: Seq<StateElement>) -> ComfortStatus {
        classify(self.comfort_read(building, s), self.setpoint)
    }

    open spec fn infer_state(&self, model: M, t: Instant, building: Building, s: Seq<StateElement>, current_comfort: i64, current_status: ComfortStatus) -> Seq<StateElement> {
        self.with_setpoint(s)
    }

    open spec fn infer_comfort(&self, model: M, t: Instant, building: Building, s: Seq<StateElement>, current_comfort: i64, current_status: ComfortStatus) -> i64 {
        self.setpoint
    }

    open spec fn acts(&self, t: Instant, current_comfort: i64, potential_comfort: i64, s: Seq<StateElement>, potential: Seq<StateElement>) -> bool {
        self.target_element < s.len() && (self.always_act || potential_comfort > current_comfort)
    }

    open spec fn act_state(&self, t: Instant, current_comfort: i64, potential_comfort: i64, s: Seq<StateElement>, potential: Seq<StateElement>) -> Seq<StateElement> {
        self.with_setpoint(s)
    }

    fn attend(&self, t: Instant, satisfaction: i64) -> (r: bool) {
        true
    }

    fn forsee(&self, t: Instant, building: &Building, model: &M, branch: &mut StateStore) -> (r: (i64, ComfortStatus)) {
        let comfort: i64 = if building.comfort_element < branch.len() {
            branch.get_value(building.comfort_element)
        } else {
            0
        };
        let status: ComfortStatus = if comfort < self.setpoint {
            ComfortStatus::TooCold
        } else if comfort == self.setpoint {
            ComfortStatus::Comfortable
        } else {
            ComfortStatus::TooHot
        };
        let ghost orig = branch@;
        let mut i: usize = 0;
        while i < branch.len()
            invariant
                i <= orig.len(),
                branch@.len() == orig.len(),
                forall|j: int| 0 <= j < i ==> branch@[j] == drifted(orig)[j],
                forall|j: int| i <= j < orig.len() ==> branch@[j] == orig[j],
            decreases orig.len() - i,
        {
            if branch.is_physical(i) {
                let v = branch.get_value(i);
                if v != i64::MAX {
                    branch.set_value(i, v + 1);
                } else {
                    branch.set_value(i, v);
                }
            }
            i = i + 1;
        }
        proof {
            assert(branch@ =~= drifted(orig));
        }
        (comfort, status)
    }

    fn infer_expected_outcomes(&self, t: Instant, building: &Building, model: &M, branch: &mut StateStore, current_comfort: i64, current_status: ComfortStatus) -> (r: i64) {
        if self.target_element < branch.len() {
            branch.set_value(self.target_element, self.setpoint);
        }
        self.setpoint
    }

    fn behave_if_worth_it(&self, t: Instant, current_comfort: i64, potential_comfort: i64, state: &mut StateStore, potential: &StateStore) -> (r: bool) {
        if self.target_element < state.len() && (self.always_act || potential_comfort > current_comfort) {
            state.set_value(self.target_element, self.setpoint);
            true
        } else {
            false
        }
    }
}

/// An occupant that never attends; every timestep is skipped and the real
/// state is only ever touched by the physics march.
#[derive(Clone, Copy, PartialEq, Eq, Structural, Debug)]
pub struct PassiveAgent {}

impl<M: PhysicsModel> OccupantAgent<M> for PassiveAgent {
    open spec fn attends(&self, t: Instant, satisfaction: i64) -> bool {
        false
    }

    open spec fn forsee_state(&self, model: M, t: Instant, building: Building, s: Seq<StateElement>) -> Seq<StateElement> {
        s
    }

    open spec fn forsee_comfort(&self, model: M, t: Instant, building: Building, s: Seq<StateElement>) -> i64 {
        0
    }

    open spec fn forsee_status(&self, model: M, t: Instant, building: Building, s: Seq<StateElement>) -> ComfortStatus {
        ComfortStatus::Comfortable
    }

    open spec fn infer_state(&self, model: M, t: Instant, building: Building, s: Seq<StateElement>, current_comfort: i64, current_status: ComfortStatus) -> Seq<StateElement> {
        s
    }

    open spec fn infer_comfort(&self, model: M, t: Instant, building: Building, s: Seq<StateElement>, current_comfort: i64, current_status: ComfortStatus) -> i64 {
        0
    }

    open spec fn acts(&self, t: Instant, current_comfort: i64, potential_comfort: i64, s: Seq<StateElement>, potential: Seq<StateElement>) -> bool {
        false
    }

    open spec fn act_state(&self, t: Instant, current_comfort: i64, potential_comfort: i64, s: Seq<StateElement>, potential: Seq<StateElement>) -> Seq<StateElement> {
        s
    }

    fn attend(&self, t: Instant, satisfaction: i64) -> (r: bool) {
        false
    }

    fn forsee(&self, t: Instant, building: &Building, model: &M, branch: &mut StateStore) -> (r: (i64, ComfortStatus)) {
        (0, ComfortStatus::Comfortable)
    }

    fn infer_expected_outcomes(&self, t: Instant, building: &Building, model: &M, branch: &mut StateStore, current_comfort: i64, current_status: ComfortStatus) -> (r: i64) {
        0
    }

    fn behave_if_worth_it(&self, t: Instant, current_comfort: i64, potential_comfort: i64, state: &mut StateStore, potential: &StateStore) -> (r: bool) {
        false
    }
}

} // verus!
