use simple_lib::agent::{PassiveAgent, SetpointAgent};
use simple_lib::building::Building;
use simple_lib::driver::SimulationError;
use simple_lib::instant::Instant;
use simple_lib::physics::{PhysicsError, UnstableModel, WeatherCoupledModel};
use simple_lib::state::StateStore;
use simple_lib::weather::{ConstantWeather, DriftingWeather};

/// A small single-zone setup: one physical zone temperature (the comfort
/// element), one physical power draw, and one non-physical setpoint element.
fn single_zone_state() -> (StateStore, Building) {
    let mut state = StateStore::new();
    let comfort = state.push_element(2000, true);
    state.push_element(0, true);
    state.push_element(1900, false);
    (state, Building { comfort_element: comfort })
}

fn eager_person() -> SetpointAgent {
    SetpointAgent { target_element: 2, setpoint: 2150, always_act: true }
}

#[test]
fn test_run() {
    let (mut state, building) = single_zone_state();
    let person = eager_person();

    let weather = ConstantWeather { dry_bulb_temperature: 42 };

    let start = Instant { day: 1, month: 1, second: 0 };

    let end = start.add_seconds(1800); // simulate half an hour

    let n = 12; // tsteps per hour

    let results = simple_lib::run::<WeatherCoupledModel, SetpointAgent, ConstantWeather>(
        start, end, &person, &building, &mut state, &weather, n,
    )
    .unwrap();

    assert_eq!(results.len(), 6);
}

#[test]
fn scenario_half_hour_yields_six_entries() {
    let (mut state, building) = single_zone_state();
    let person = eager_person();
    let weather = ConstantWeather { dry_bulb_temperature: 42 };
    let start = Instant::new(1, 1, 0);
    let end = start.add_seconds(1800);

    let results = simple_lib::run::<WeatherCoupledModel, SetpointAgent, ConstantWeather>(
        start, end, &person, &building, &mut state, &weather, 12,
    )
    .unwrap();

    assert_eq!(results.len(), 6);
    for i in 0..6 {
        let entry = results.get(i);
        assert_eq!(entry.timestep_start.month, 1);
        assert_eq!(entry.timestep_start.day, 1);
        assert_eq!(entry.timestep_start.second, (i as u32) * 300);
        if i > 0 {
            let previous = results.get(i - 1);
            assert!(entry.timestep_start.is_later(&previous.timestep_start));
            assert_eq!(
                entry.timestep_start.second - previous.timestep_start.second,
                300
            );
        }
    }
}

#[test]
fn scenario_week_of_constant_weather() {
    let (mut state, building) = single_zone_state();
    let person = eager_person();
    let fixed = (23.0_f64 * 100.0) as i64;
    let weather = ConstantWeather { dry_bulb_temperature: fixed };
    let start = Instant::new(1, 1, 0);
    let end = start.add_seconds(7 * 86400);

    let results = simple_lib::run::<WeatherCoupledModel, SetpointAgent, ConstantWeather>(
        start, end, &person, &building, &mut state, &weather, 1,
    )
    .unwrap();

    // One march per entry: 24 * 7 of them, none failing.
    assert_eq!(results.len(), 24 * 7);
    for i in 0..results.len() {
        assert_eq!(results.get(i).weather.dry_bulb_temperature, fixed);
    }
    // Physical elements follow the constant forcing.
    assert_eq!(state.get_value(0), fixed);
    assert_eq!(state.get_value(1), fixed);
}

#[test]
fn scenario_committed_every_step_differs_from_baseline() {
    let (mut state, building) = single_zone_state();
    let person = eager_person();
    let weather = ConstantWeather { dry_bulb_temperature: 42 };
    let start = Instant::new(1, 1, 0);
    let end = start.add_seconds(3600);

    let results = simple_lib::run::<WeatherCoupledModel, SetpointAgent, ConstantWeather>(
        start, end, &person, &building, &mut state, &weather, 4,
    )
    .unwrap();

    // Every timestep ends committed.
    assert_eq!(results.len(), 4);
    for i in 0..4 {
        let record = results.get(i).agent_record.expect("attended timestep");
        assert!(record.committed);
    }

    // Baseline: identical inputs, an occupant that never attends.
    let (mut baseline_state, baseline_building) = single_zone_state();
    let passive = PassiveAgent {};
    let baseline = simple_lib::run::<WeatherCoupledModel, PassiveAgent, ConstantWeather>(
        start, end, &passive, &baseline_building, &mut baseline_state, &weather, 4,
    )
    .unwrap();
    for i in 0..4 {
        assert!(baseline.get(i).agent_record.is_none());
    }

    // The committed action shows in the element the agent writes.
    assert_eq!(state.get_value(2), 2150);
    assert_eq!(baseline_state.get_value(2), 1900);
    assert_ne!(state.get_value(2), baseline_state.get_value(2));
}

#[test]
fn attended_but_not_worthwhile_leaves_state_untouched() {
    let (mut state, building) = single_zone_state();
    // Forecast comfort equals the forcing the march just applied, so a
    // setpoint at that same value promises no improvement.
    let person = SetpointAgent { target_element: 2, setpoint: 42, always_act: false };
    let weather = ConstantWeather { dry_bulb_temperature: 42 };
    let start = Instant::new(1, 1, 0);
    let end = start.add_seconds(900);

    let results = simple_lib::run::<WeatherCoupledModel, SetpointAgent, ConstantWeather>(
        start, end, &person, &building, &mut state, &weather, 4,
    )
    .unwrap();

    assert_eq!(results.len(), 1);
    let record = results.get(0).agent_record.expect("attended timestep");
    assert!(!record.committed);
    assert_eq!(record.current_comfort, 42);
    assert_eq!(record.potential_comfort, 42);
    // The bookkeeping element the agent would have written is unchanged.
    assert_eq!(state.get_value(2), 1900);
}

#[test]
fn rejects_equal_bounds_without_stepping() {
    let (mut state, building) = single_zone_state();
    let person = eager_person();
    let weather = ConstantWeather { dry_bulb_temperature: 42 };
    let start = Instant::new(6, 15, 43200);
    let before = (state.get_value(0), state.get_value(1), state.get_value(2));

    let r = simple_lib::run::<WeatherCoupledModel, SetpointAgent, ConstantWeather>(
        start, start, &person, &building, &mut state, &weather, 12,
    );

    match r {
        Err(SimulationError::InvalidPeriod { start: ps, end: pe }) => {
            assert_eq!(ps, start);
            assert_eq!(pe, start);
        }
        _ => panic!("expected an invalid-period error"),
    }
    // Zero marches: nothing changed.
    let after = (state.get_value(0), state.get_value(1), state.get_value(2));
    assert_eq!(before, after);
}

#[test]
fn rejects_inverted_bounds_without_stepping() {
    let (mut state, building) = single_zone_state();
    let person = eager_person();
    let weather = ConstantWeather { dry_bulb_temperature: 42 };
    let start = Instant::new(2, 1, 0);
    let end = Instant::new(1, 20, 0);
    let before = (state.get_value(0), state.get_value(1), state.get_value(2));

    let r = simple_lib::run::<WeatherCoupledModel, SetpointAgent, ConstantWeather>(
        start, end, &person, &building, &mut state, &weather, 12,
    );

    assert!(matches!(r, Err(SimulationError::InvalidPeriod { .. })));
    let after = (state.get_value(0), state.get_value(1), state.get_value(2));
    assert_eq!(before, after);
}

#[test]
fn model_construction_failure_is_recoverable() {
    let (mut state, building) = single_zone_state();
    let person = eager_person();
    let weather = ConstantWeather { dry_bulb_temperature: 42 };
    let start = Instant::new(1, 1, 0);
    let end = start.add_seconds(3600);
    let before = (state.get_value(0), state.get_value(1), state.get_value(2));

    // 72 substeps per hour lie beyond the unstable model's stability limit.
    let r = simple_lib::run::<UnstableModel, SetpointAgent, ConstantWeather>(
        start, end, &person, &building, &mut state, &weather, 72,
    );

    match r {
        Err(SimulationError::InvalidModel { cause }) => {
            assert_eq!(cause, PhysicsError::InvalidConfiguration);
        }
        _ => panic!("expected a model-construction error"),
    }
    let after = (state.get_value(0), state.get_value(1), state.get_value(2));
    assert_eq!(before, after);
}

#[test]
fn march_failure_stops_at_first_instant() {
    let (mut state, building) = single_zone_state();
    let person = eager_person();
    // Extreme forcing makes every unstable-model march diverge.
    let weather = ConstantWeather { dry_bulb_temperature: 100_000 };
    let start = Instant::new(1, 1, 0);
    let end = start.add_seconds(3600);
    let before = (state.get_value(0), state.get_value(1), state.get_value(2));

    let r = simple_lib::run::<UnstableModel, SetpointAgent, ConstantWeather>(
        start, end, &person, &building, &mut state, &weather, 60,
    );

    match r {
        Err(SimulationError::MarchFailed { at_step, when, cause }) => {
            assert_eq!(at_step, 0);
            assert_eq!(when, start);
            assert_eq!(cause, PhysicsError::NumericalDivergence);
        }
        _ => panic!("expected a march failure"),
    }
    let after = (state.get_value(0), state.get_value(1), state.get_value(2));
    assert_eq!(before, after);
}

#[test]
fn march_failure_mid_run_keeps_earlier_steps() {
    let (mut state, building) = single_zone_state();
    let person = PassiveAgent {};
    // The forcing reaches the divergence bound in the third hour.
    let weather = DriftingWeather { base_temperature: 99_998, hourly_drift: 1 };
    let start = Instant::new(1, 1, 0);
    let end = start.add_seconds(6 * 3600);

    let r = simple_lib::run::<UnstableModel, PassiveAgent, DriftingWeather>(
        start, end, &person, &building, &mut state, &weather, 1,
    );

    match r {
        Err(SimulationError::MarchFailed { at_step, when, cause }) => {
            assert_eq!(at_step, 2);
            assert_eq!(when, Instant::new(1, 1, 7200));
            assert_eq!(cause, PhysicsError::NumericalDivergence);
        }
        _ => panic!("expected a march failure"),
    }
    // The state stands as the second march left it.
    assert_eq!(state.get_value(0), 99_999);
    assert_eq!(state.get_value(1), 99_999);
    assert_eq!(state.get_value(2), 1900);
}

#[test]
fn timeline_snapshots_record_post_decision_state() {
    let (mut state, building) = single_zone_state();
    let person = eager_person();
    let weather = ConstantWeather { dry_bulb_temperature: 42 };
    let start = Instant::new(1, 1, 0);
    let end = start.add_seconds(600);

    let results = simple_lib::run::<WeatherCoupledModel, SetpointAgent, ConstantWeather>(
        start, end, &person, &building, &mut state, &weather, 12,
    )
    .unwrap();

    assert_eq!(results.len(), 2);
    for i in 0..2 {
        let snapshot = &results.get(i).state_elements;
        assert_eq!(snapshot.len(), 3);
        // Physical elements as the march left them, the bookkeeping element
        // as the committed decision left it.
        assert_eq!(snapshot[0].value, 42);
        assert_eq!(snapshot[1].value, 42);
        assert_eq!(snapshot[2].value, 2150);
    }
}
