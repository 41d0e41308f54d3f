//! The timestep driver: the per-run loop and the speculative decision
//! protocol.
//!
//! Each timestep first marches the physics model, then runs the decision
//! protocol: the occupant may skip the timestep, or attend to it — in which
//! case it forecasts on an independent branch copy of the state, has the
//! branch's physical fields reset to the real baseline, projects the outcome
//! of acting, and finally either commits a change into the real state or
//! leaves it untouched. The real state is only ever mutated by the march and
//! by a committed decision.

use vstd::prelude::*;
use crate::agent::OccupantAgent;
use crate::building::Building;
use crate::instant::{instant_of_seconds, lemma_total_seconds_roundtrip, Instant};
use crate::physics::{PhysicsError, PhysicsModel};
use crate::results::{DecisionRecord, SimulationResults, TimeStepResults};
use crate::sequencer::{period_count, period_instant, PeriodSequencer};
use crate::state::{reset_physical_spec, same_shape, StateElement, StateStore};
use crate::weather::WeatherProvider;

verus! {

/// Why a run refused to start or stopped early.
#[derive(Clone, Copy, PartialEq, Eq, Structural, Debug)]
pub enum SimulationError {
    /// The period bounds are inconsistent: the start does not lie strictly
    /// before the end. Recoverable; reported before any stepping occurs.
    InvalidPeriod {
        /// The offending start bound.
        start: Instant,
        /// The offending end bound.
        end: Instant,
    },
    /// The physics model refused construction. Recoverable; reported before
    /// any stepping occurs.
    InvalidModel {
        /// The model's reason.
        cause: PhysicsError,
    },
    /// A march failed mid-run; the run stops at the failing instant and the
    /// state is left as it stood before that march. Fatal for the run.
    MarchFailed {
        /// Index of the failing timestep.
        at_step: usize,
        /// The failing instant.
        when: Instant,
        /// The model's reason.
        cause: PhysicsError,
    },
}

/// The timestep length in seconds for `n` substeps per hour.
pub open spec fn dt_seconds(n: usize) -> int {
    3600int / n as int
}

/// The immediate satisfaction signal: a pure read of the comfort-relevant
/// element of the just-advanced real state.
pub open spec fn immediate_satisfaction(building: Building, s: Seq<StateElement>) -> i64 {
    s[building.comfort_element as int].value
}

/// The real state the decision protocol leaves behind, given the post-march
/// state `m`: unchanged unless the occupant attends and judges acting
/// worthwhile, in which case it is exactly the occupant's act applied to
/// `m`. The forecast and infer steps touch only the discarded branch.
pub open spec fn decided_state<M: PhysicsModel, A: OccupantAgent<M>>(
    person: &A,
    model: M,
    building: Building,
    m: Seq<StateElement>,
    t: Instant,
) -> Seq<StateElement> {
    if !person.attends(t, immediate_satisfaction(building, m)) {
        m
    } else {
        let cc = person.forsee_comfort(model, t, building, m);
        let cs = person.forsee_status(model, t, building, m);
        let branch1 = person.forsee_state(model, t, building, m);
        let branch2 = reset_physical_spec(branch1, m);
        let pc = person.infer_comfort(model, t, building, branch2, cc, cs);
        let branch3 = person.infer_state(model, t, building, branch2, cc, cs);
        if person.acts(t, cc, pc, m, branch3) {
            person.act_state(t, cc, pc, m, branch3)
        } else {
            m
        }
    }
}

/// The decision record the protocol produces for the post-march state `m`:
/// nothing when the occupant skips, otherwise the forecast outcome, the
/// projected outcome of acting, and whether the occupant committed.
pub open spec fn decision_record<M: PhysicsModel, A: OccupantAgent<M>>(
    person: &A,
    model: M,
    building: Building,
    m: Seq<StateElement>,
    t: Instant,
) -> Option<DecisionRecord> {
    if !person.attends(t, immediate_satisfaction(building, m)) {
        None
    } else {
        let cc = person.forsee_comfort(model, t, building, m);
        let cs = person.forsee_status(model, t, building, m);
        let branch1 = person.forsee_state(model, t, building, m);
        let branch2 = reset_physical_spec(branch1, m);
        let pc = person.infer_comfort(model, t, building, branch2, cc, cs);
        let branch3 = person.infer_state(model, t, building, branch2, cc, cs);
        Some(DecisionRecord {
            current_comfort: cc,
            current_status: cs,
            potential_comfort: pc,
            committed: person.acts(t, cc, pc, m, branch3),
        })
    }
}

/// One whole timestep on the real state: a successful march followed by the
/// decision protocol.
pub open spec fn step_state<M: PhysicsModel, A: OccupantAgent<M>>(
    person: &A,
    model: M,
    building: Building,
    s: Seq<StateElement>,
    t: Instant,
    w: crate::weather::WeatherSample,
) -> Seq<StateElement> {
    decided_state(person, model, building, model.march_state(t, w, building, s), t)
}

/// The real state after the first `k` timesteps of a run that started from
/// `s0`, assuming every march so far succeeded.
pub open spec fn run_state<M: PhysicsModel, A: OccupantAgent<M>, W: WeatherProvider>(
    person: &A,
    model: M,
    weather: &W,
    building: Building,
    s0: Seq<StateElement>,
    start_s: int,
    step_s: int,
    k: nat,
) -> Seq<StateElement>
    decreases k,
{
    if k == 0 {
        s0
    } else {
        let prev = run_state(person, model, weather, building, s0, start_s, step_s, (k - 1) as nat);
        let t = instant_of_seconds(period_instant(start_s, step_s, k - 1));
        step_state(person, model, building, prev, t, weather.weather_at(t))
    }
}

/// Whether the march of timestep `j` succeeds, starting from the state the
/// run has reached by then.
pub open spec fn march_ok_at<M: PhysicsModel, A: OccupantAgent<M>, W: WeatherProvider>(
    person: &A,
    model: M,
    weather: &W,
    building: Building,
    s0: Seq<StateElement>,
    start_s: int,
    step_s: int,
    j: nat,
) -> bool {
    let t = instant_of_seconds(period_instant(start_s, step_s, j as int));
    model.march_ok(
        t,
        weather.weather_at(t),
        building,
        run_state(person, model, weather, building, s0, start_s, step_s, j),
    )
}

/// Whether the marches of all timesteps below `k` succeed.
pub open spec fn marches_ok_upto<M: PhysicsModel, A: OccupantAgent<M>, W: WeatherProvider>(
    person: &A,
    model: M,
    weather: &W,
    building: Building,
    s0: Seq<StateElement>,
    start_s: int,
    step_s: int,
    k: nat,
) -> bool {
    forall|j: nat| j < k ==> #[trigger] march_ok_at(person, model, weather, building, s0, start_s, step_s, j)
}

/// What one timeline record of a completed run holds for timestep `j`: its
/// instant, its weather sample, the post-decision state snapshot, and the
/// occupant's decision record.
pub open spec fn entry_matches<M: PhysicsModel, A: OccupantAgent<M>, W: WeatherProvider>(
    e: TimeStepResults,
    person: &A,
    model: M,
    weather: &W,
    building: Building,
    s0: Seq<StateElement>,
    start_s: int,
    step_s: int,
    j: nat,
) -> bool {
    let t = instant_of_seconds(period_instant(start_s, step_s, j as int));
    let w = weather.weather_at(t);
    let before = run_state(person, model, weather, building, s0, start_s, step_s, j);
    &&& e.timestep_start == t
    &&& e.weather == w
    &&& e.state_elements@ == run_state(person, model, weather, building, s0, start_s, step_s, (j + 1) as nat)
    &&& e.agent_record == decision_record(person, model, building, model.march_state(t, w, building, before), t)
}

/// Mutation-boundary law: within a timestep, the decision protocol leaves
/// the post-march state `m` untouched whenever the occupant skips or
/// attends without committing, and replaces it by exactly the occupant's
/// act when the occupant commits — the forecast and infer sub-steps never
/// show up in the real state.
pub proof fn lemma_mutation_boundary<M: PhysicsModel, A: OccupantAgent<M>>(
    person: &A,
    model: M,
    building: Building,
    m: Seq<StateElement>,
    t: Instant,
)
    ensures
        decision_record(person, model, building, m, t) is None
            ==> decided_state(person, model, building, m, t) == m,
        (decision_record(person, model, building, m, t) matches Some(rec) && !rec.committed)
            ==> decided_state(person, model, building, m, t) == m,
        ({
            let cc = person.forsee_comfort(model, t, building, m);
            let cs = person.forsee_status(model, t, building, m);
            let branch2 = reset_physical_spec(person.forsee_state(model, t, building, m), m);
            let pc = person.infer_comfort(model, t, building, branch2, cc, cs);
            let branch3 = person.infer_state(model, t, building, branch2, cc, cs);
            (decision_record(person, model, building, m, t) matches Some(rec) && rec.committed)
                ==> decided_state(person, model, building, m, t)
                    == person.act_state(t, cc, pc, m, branch3)
        }),
{
}

/// Mutation-boundary law across a full run: after any timestep, the real
/// state is either exactly what that timestep's march produced (when the
/// occupant skipped, or attended without committing) or the occupant's act
/// applied to the post-march state (when it committed) — never a product of
/// the forecast or infer sub-steps.
pub proof fn lemma_run_mutation_boundary<M: PhysicsModel, A: OccupantAgent<M>, W: WeatherProvider>(
    person: &A,
    model: M,
    weather: &W,
    building: Building,
    s0: Seq<StateElement>,
    start_s: int,
    step_s: int,
    k: nat,
)
    requires
        1 <= k,
    ensures
        ({
            let t = instant_of_seconds(period_instant(start_s, step_s, k - 1));
            let w = weather.weather_at(t);
            let m = model.march_state(
                t, w, building,
                run_state(person, model, weather, building, s0, start_s, step_s, (k - 1) as nat),
            );
            let rec = decision_record(person, model, building, m, t);
            &&& (rec is None
                ==> run_state(person, model, weather, building, s0, start_s, step_s, k) == m)
            &&& ((rec matches Some(d) && !d.committed)
                ==> run_state(person, model, weather, building, s0, start_s, step_s, k) == m)
            &&& ({
                let cc = person.forsee_comfort(model, t, building, m);
                let cs = person.forsee_status(model, t, building, m);
                let branch2 = reset_physical_spec(person.forsee_state(model, t, building, m), m);
                let pc = person.infer_comfort(model, t, building, branch2, cc, cs);
                let branch3 = person.infer_state(model, t, building, branch2, cc, cs);
                (rec matches Some(d) && d.committed)
                    ==> run_state(person, model, weather, building, s0, start_s, step_s, k)
                        == person.act_state(t, cc, pc, m, branch3)
            })
        }),
{
    let t = instant_of_seconds(period_instant(start_s, step_s, k - 1));
    let w = weather.weather_at(t);
    let m = model.march_state(
        t, w, building,
        run_state(person, model, weather, building, s0, start_s, step_s, (k - 1) as nat),
    );
    lemma_mutation_boundary(person, model, building, m, t);
    assert(run_state(person, model, weather, building, s0, start_s, step_s, k)
        == decided_state(person, model, building, m, t));
}

/// Runs the decision protocol once, immediately after a successful march.
/// Only the occupant's behave step may touch the real state; the forecast
/// and infer steps work on a branch copy that is discarded here.
fn decide<M: PhysicsModel, A: OccupantAgent<M>>(
    person: &A,
    model: &M,
    building: &Building,
    t: Instant,
    state: &mut StateStore,
) -> (r: Option<DecisionRecord>)
    requires
        building.valid_for(old(state)@.len() as int),
    ensures
        final(state)@ == decided_state(person, *model, *building, old(state)@, t),
        r == decision_record(person, *model, *building, old(state)@, t),
        same_shape(final(state)@, old(state)@),
{
    let satisfaction = state.get_value(building.comfort_element);
    if person.attend(t, satisfaction) {
        // Branch: a full independent copy of the real state; everything the
        // forecast does to it stays invisible in the real timeline.
        let mut branch = state.deep_clone();
        let (current_comfort, current_status) = person.forsee(t, building, model, &mut branch);
        // Undo the forecast's physical drift, keeping its bookkeeping: the
        // infer step must start from the true current physical baseline.
        branch.reset_physical_from(state);
        let potential_comfort = person.infer_expected_outcomes(
            t, building, model, &mut branch, current_comfort, current_status,
        );
        // The only place the real state can change outside a march.
        let acted = person.behave_if_worth_it(
            t, current_comfort, potential_comfort, state, &branch,
        );
        Some(DecisionRecord {
            current_comfort,
            current_status,
            potential_comfort,
            committed: acted,
        })
    } else {
        None
    }
}

/// Drives one whole simulation run over the period from `start` to `end`
/// with `n` substeps per hour: validates the period, constructs the physics
/// model, and then, per instant of the period in order, fetches weather,
/// marches the model, runs the decision protocol and appends one timeline
/// record.
///
/// The result pins the whole run down: the period is rejected exactly when
/// `start` does not lie strictly before `end`; on success the timeline
/// has exactly one record per period instant, each record carries its
/// instant, weather sample, post-decision snapshot and decision record, and
/// the final real state is the fold of the per-timestep protocol over the
/// period; a failed march stops the run at the failing instant with the
/// state as it stood before that march.
///
/// The integer-second clock requires `n` to divide one hour evenly, and the
/// building configuration must name an existing comfort element, since the
/// protocol reads the immediate satisfaction signal from it every timestep.
#[verifier::loop_isolation(false)]
#[verifier::rlimit(30)]
pub fn run<M: PhysicsModel, A: OccupantAgent<M>, W: WeatherProvider>(
    start: Instant,
    end: Instant,
    person: &A,
    building: &Building,
    state: &mut StateStore,
    weather: &W,
    n: usize,
) -> (r: Result<SimulationResults, SimulationError>)
    requires
        start.wf(),
        end.wf(),
        1 <= n,
        3600int % (n as int) == 0,
        building.valid_for(old(state)@.len() as int),
    ensures
        (r matches Err(SimulationError::InvalidPeriod { .. }))
            <==> start.total_seconds() >= end.total_seconds(),
        r matches Err(SimulationError::InvalidPeriod { start: ps, end: pe })
            ==> ps == start && pe == end && final(state)@ == old(state)@,
        (r matches Err(SimulationError::InvalidModel { .. }))
            <==> (start.total_seconds() < end.total_seconds()
                && !M::constructible(*building, old(state)@, n)),
        r matches Err(SimulationError::InvalidModel { .. }) ==> final(state)@ == old(state)@,
        ({
            let model = M::model_of(*building, old(state)@, n);
            let a = start.total_seconds();
            let st = dt_seconds(n);
            let cnt = period_count(a, end.total_seconds(), st) as nat;
            &&& (r matches Ok(results) ==> {
                &&& marches_ok_upto(person, model, weather, *building, old(state)@, a, st, cnt)
                &&& results@.len() == cnt
                &&& final(state)@ == run_state(person, model, weather, *building, old(state)@, a, st, cnt)
                &&& forall|j: int| 0 <= j < cnt ==> entry_matches(
                    #[trigger] results@[j],
                    person, model, weather, *building, old(state)@, a, st, j as nat,
                )
            })
            &&& (start.total_seconds() < end.total_seconds()
                && M::constructible(*building, old(state)@, n)
                && marches_ok_upto(person, model, weather, *building, old(state)@, a, st, cnt)
                ==> r is Ok)
            &&& (r matches Err(SimulationError::MarchFailed { at_step, when, cause }) ==> {
                &&& at_step < cnt
                &&& marches_ok_upto(person, model, weather, *building, old(state)@, a, st, at_step as nat)
                &&& !march_ok_at(person, model, weather, *building, old(state)@, a, st, at_step as nat)
                &&& when == instant_of_seconds(period_instant(a, st, at_step as int))
                &&& final(state)@ == run_state(person, model, weather, *building, old(state)@, a, st, at_step as nat)
            })
        }),
{
    proof {
        lemma_total_seconds_roundtrip(start);
        lemma_total_seconds_roundtrip(end);
    }
    if start == end || start.is_later(&end) {
        return Err(SimulationError::InvalidPeriod { start, end });
    }

    let model = match M::new(building, state, n) {
        Ok(m) => m,
        Err(cause) => {
            return Err(SimulationError::InvalidModel { cause });
        },
    };

    // Timestep in whole seconds, and the period covering the run.
    let dt: u64 = 3600 / (n as u64);
    let mut sim_period = PeriodSequencer::new(&start, &end, dt);
    let mut results = SimulationResults::new();
    let mut k: usize = 0;

    let ghost s0 = old(state)@;
    let ghost a = start.total_seconds();
    let ghost st = dt_seconds(n);
    let ghost cnt = period_count(a, end.total_seconds(), st) as nat;

    while sim_period.has_next()
        invariant
            sim_period.wf(),
            sim_period.start_spec() == a,
            sim_period.end_spec() == end.total_seconds(),
            sim_period.step_spec() == st,
            k == sim_period.position(),
            k <= cnt,
            results@.len() == k,
            same_shape(state@, s0),
            state@ == run_state(person, model, weather, *building, s0, a, st, k as nat),
            marches_ok_upto(person, model, weather, *building, s0, a, st, k as nat),
            forall|j: int| 0 <= j < k ==> entry_matches(
                #[trigger] results@[j], person, model, weather, *building, s0, a, st, j as nat,
            ),
        decreases sim_period.count() - sim_period.position(),
    {
        let date = match sim_period.next_instant() {
            Some(d) => d,
            None => {
                proof {
                    assert(false);
                }
                Instant { month: 1, day: 1, second: 0 }
            },
        };

        // Weather forcing for this instant.
        let w = weather.get_weather_data(date);

        // March the model; a failure here is fatal for the run.
        match model.march(date, &w, building, state) {
            Ok(()) => {},
            Err(cause) => {
                proof {
                    assert(!march_ok_at(person, model, weather, *building, s0, a, st, k as nat));
                }
                return Err(SimulationError::MarchFailed { at_step: k, when: date, cause });
            },
        }
        proof {
            assert(march_ok_at(person, model, weather, *building, s0, a, st, k as nat));
            assert forall|j: nat| j < k + 1 implies #[trigger] march_ok_at(
                person, model, weather, *building, s0, a, st, j,
            ) by {
                if j < k {
                    assert(marches_ok_upto(person, model, weather, *building, s0, a, st, k as nat));
                }
            }
        }

        // Let the occupant evaluate and possibly commit a change.
        let record = decide(person, &model, building, date, state);
        proof {
            assert(state@ == run_state(person, model, weather, *building, s0, a, st, (k + 1) as nat));
        }

        // One immutable record per timestep, snapshotting the
        // post-march, post-decision state.
        let snapshot = state.snapshot_elements();
        let entry = TimeStepResults {
            timestep_start: date,
            state_elements: snapshot,
            weather: w,
            agent_record: record,
        };
        results.push(entry);
        k = k + 1;
    }

    Ok(results)
}

} // verus!

