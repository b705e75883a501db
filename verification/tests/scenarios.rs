use olympus::atmosphere::{density, AirDensity};
use olympus::config::{ConfigurationError, SimulationConfig};
use olympus::gravity::{EARTH_MASS, EARTH_RADIUS};
use olympus::integrator::{
    should_continue, start, step, Report, SimulationState, TARTARUS_DURATION,
};
use olympus::simulation::{advance, resume, simulate, Halt, Run};
use olympus::units::{DAY, KILOMETRE, METRE, METRE_PER_SECOND};

fn anvil() -> SimulationConfig {
    SimulationConfig {
        initial_distance: 573_851_000_000_000,
        width: 279_000,
        mass: 117_000,
        time_step: 10_000,
        tartarus_mode: false,
    }
}

fn at(distance: i64, velocity: i64, elapsed_time: u64) -> SimulationState {
    SimulationState { distance, velocity, elapsed_time }
}

/// The pressure ratio for a barometric base, both in parts per billion.
fn pressure_ratio(base: u64) -> u128 {
    ((base as f64 / 1e9).powf(5.25588) * 1e9) as u128
}

/// Runs a fall to its end, with the pressure ratio for each step below sea level.
fn fall(config: &SimulationConfig, max_steps: u64) -> Run {
    let mut run = simulate(config, max_steps).unwrap();
    while run.halt == Halt::BelowSeaLevel {
        let base = match density(run.state.distance) {
            AirDensity::Barometric { base } => base,
            AirDensity::Known(_) => unreachable!(),
        };
        run = resume(config, run, pressure_ratio(base), max_steps);
    }
    run
}

/// The state in which a fall from rest at `from` first is at or below `level`.
fn crossing(config: &SimulationConfig, from: i64, level: i64) -> SimulationState {
    let mut state = at(from, 0, 0);
    while state.distance > level {
        let rho = match density(state.distance) {
            AirDensity::Known(rho) => rho,
            AirDensity::Barometric { .. } => unreachable!(),
        };
        state = step(config, &state, rho).unwrap().state;
    }
    state
}

#[test]
fn the_default_drop_lands_after_nine_days() {
    let config = anvil();
    let run = simulate(&config, u64::MAX).unwrap();
    assert_eq!(run.halt, Halt::Finished);
    assert!(!should_continue(&config, &run.state));
    assert!(run.state.velocity > 0);
    assert!(run.state.elapsed_time as i64 >= DAY);
    assert!(run.state.elapsed_time as i64 <= 200 * DAY);
    assert_eq!(run.steps, 77_759_282);
    assert_eq!(run.state, at(280_425, 150_271_332_711_717, 777_592_820_000));
    assert_eq!(run.reports.len(), 142);
}

#[test]
fn the_default_drop_in_tartarus_mode_lasts_nine_days() {
    let config = SimulationConfig { time_step: 250_000, tartarus_mode: true, ..anvil() };
    // the object comes to the surface two and a half seconds before the end
    let first = simulate(&config, u64::MAX).unwrap();
    assert_eq!(first.halt, Halt::BelowSeaLevel);
    assert_eq!(first.steps, 3_110_390);
    assert_eq!(first.state, at(-15_556_441, 149_591_910_426_057, 777_597_500_000));
    let run = fall(&config, u64::MAX);
    assert_eq!(run.halt, Halt::Finished);
    assert_eq!(run.state.elapsed_time, TARTARUS_DURATION);
    assert_eq!(run.steps, 3_110_400);
    assert!(run.state.distance < first.state.distance);
    assert_eq!(run.reports.len(), 147);
}

#[test]
fn a_fall_in_tartarus_mode_goes_on_below_the_surface_for_nine_days() {
    // a rod one millimetre wide sinks into the ground for most of its fall
    let config = SimulationConfig {
        initial_distance: 1_000 * KILOMETRE,
        width: 1_000,
        time_step: 100_000,
        tartarus_mode: true,
        ..anvil()
    };
    let run = fall(&config, u64::MAX);
    assert_eq!(run.halt, Halt::Finished);
    assert_eq!(run.state.elapsed_time, TARTARUS_DURATION);
    assert_eq!(run.steps, 7_776_000);
    assert!(run.state.distance < -1_000 * KILOMETRE);
    assert!(run.state.velocity > 0);
    assert!(run.state.velocity < 10 * METRE_PER_SECOND);
}

#[test]
fn a_fall_in_tartarus_mode_ends_within_one_time_step_of_nine_days() {
    let config = SimulationConfig {
        initial_distance: 10_000 * KILOMETRE,
        width: METRE,
        mass: 5_000_000,
        time_step: 7_000_000,
        tartarus_mode: true,
    };
    let run = fall(&config, u64::MAX);
    assert_eq!(run.halt, Halt::Finished);
    assert!(run.state.elapsed_time >= TARTARUS_DURATION);
    assert!(run.state.elapsed_time - 7_000_000 < TARTARUS_DURATION);
    assert_eq!(run.state.elapsed_time, 777_602_000_000);
    assert_eq!(run.steps, 111_086);
}

#[test]
fn a_run_in_tartarus_mode_stops_for_the_caller_below_sea_level() {
    let config = SimulationConfig { initial_distance: 0, tartarus_mode: true, ..anvil() };
    let run = simulate(&config, 2_000).unwrap();
    assert_eq!(run.halt, Halt::BelowSeaLevel);
    assert_eq!(run.steps, 1);
    assert_eq!(run.state, at(-982, 98_226_906_153, 10_000));
    let next = advance(&config, run.state, 1_999);
    assert_eq!(next.halt, Halt::BelowSeaLevel);
    assert_eq!(next.steps, 0);
    assert_eq!(next.state, run.state);
}

#[test]
fn a_heavier_object_is_faster_at_every_altitude_in_the_air() {
    let light = SimulationConfig { initial_distance: 200 * KILOMETRE, ..anvil() };
    let heavy = SimulationConfig { mass: 234_000, ..light };
    // at the edge of the air the two have fallen alike
    let a = crossing(&light, light.initial_distance, 100 * KILOMETRE);
    let b = crossing(&heavy, heavy.initial_distance, 100 * KILOMETRE);
    assert_eq!(a, at(99_993_032_094, 1_369_400_317_501_357, 146_800_000));
    assert_eq!(a, b);
    for level in [50 * KILOMETRE, 10 * KILOMETRE, KILOMETRE] {
        let a = crossing(&light, light.initial_distance, level);
        let b = crossing(&heavy, heavy.initial_distance, level);
        assert!(b.velocity > a.velocity, "at {}", level);
    }
    let a = crossing(&light, light.initial_distance, 10 * KILOMETRE);
    let b = crossing(&heavy, heavy.initial_distance, 10 * KILOMETRE);
    assert_eq!(a, at(9_997_660_851, 375_387_825_662_588, 214_730_000));
    assert_eq!(b, at(9_996_593_593, 786_947_204_769_728, 206_830_000));
}

#[test]
fn a_heavier_object_lands_faster() {
    let light = SimulationConfig { initial_distance: 200 * KILOMETRE, ..anvil() };
    let heavy = SimulationConfig { mass: 234_000, ..light };
    let a = simulate(&light, u64::MAX).unwrap();
    let b = simulate(&heavy, u64::MAX).unwrap();
    assert_eq!(a.halt, Halt::Finished);
    assert_eq!(b.halt, Halt::Finished);
    assert_eq!(a.state, at(846_408, 149_044_606_089_299, 273_300_000));
    assert_eq!(b.state, at(1_543_597, 226_394_646_633_369, 236_600_000));
    assert_eq!(a.steps, 27_330);
    assert_eq!(b.steps, 23_660);
    assert!(b.state.velocity > a.state.velocity);
    assert_eq!(a.reports.len(), 274);
    assert_eq!(b.reports.len(), 237);
}

#[test]
fn two_runs_of_one_fall_are_the_same() {
    let config = SimulationConfig { initial_distance: 300 * KILOMETRE, ..anvil() };
    let a = simulate(&config, u64::MAX).unwrap();
    let b = simulate(&config, u64::MAX).unwrap();
    assert_eq!(a.state, b.state);
    assert_eq!(a.steps, b.steps);
    assert_eq!(a.halt, b.halt);
    assert_eq!(a.reports, b.reports);
    let c = advance(&config, start(&config), u64::MAX);
    assert_eq!(a.state, c.state);
    assert_eq!(a.reports, c.reports);
}

#[test]
fn a_run_can_be_taken_up_where_it_stopped() {
    let config = SimulationConfig { initial_distance: 300 * KILOMETRE, ..anvil() };
    let whole = simulate(&config, u64::MAX).unwrap();
    let first = simulate(&config, 10_000).unwrap();
    assert_eq!(first.halt, Halt::StepLimit);
    assert_eq!(first.steps, 10_000);
    let second = advance(&config, first.state, u64::MAX);
    assert_eq!(second.halt, Halt::Finished);
    assert_eq!(second.state, whole.state);
    assert_eq!(first.steps + second.steps, whole.steps);
    let mut reports = first.reports;
    reports.extend(second.reports);
    assert_eq!(reports, whole.reports);
}

#[test]
fn a_run_below_sea_level_goes_on_with_the_pressure_ratio() {
    let config = SimulationConfig { initial_distance: 0, tartarus_mode: true, ..anvil() };
    let first = simulate(&config, 2_000).unwrap();
    assert_eq!(first.halt, Halt::BelowSeaLevel);
    assert_eq!(density(first.state.distance), AirDensity::Barometric { base: 1_000_000_022 });
    let first_report = first.reports[0];
    // 1.000000022 to the power 5.25588 is 1.000000116
    let next = resume(&config, first, 1_000_000_116, 2_000);
    assert_eq!(next.halt, Halt::BelowSeaLevel);
    assert_eq!(next.steps, 2);
    assert_eq!(next.state, at(-2_946, 196_453_769_600, 20_000));
    assert_eq!(next.reports, vec![first_report]);
}

#[test]
fn a_step_below_sea_level_is_reported_like_any_other() {
    let config = SimulationConfig { tartarus_mode: true, ..anvil() };
    let before = advance(&config, at(-5 * METRE, METRE_PER_SECOND, 21_600_000_000), 10);
    assert_eq!(before.halt, Halt::BelowSeaLevel);
    assert_eq!(before.steps, 0);
    assert_eq!(density(-5 * METRE), AirDensity::Barometric { base: 1_000_112_788 });
    // 1.000112788 to the power 5.25588 is 1.000592945
    let run = resume(&config, before, 1_000_592_945, 10);
    assert_eq!(run.halt, Halt::BelowSeaLevel);
    assert_eq!(run.steps, 1);
    assert_eq!(run.state.elapsed_time, 21_600_010_000);
    assert_eq!(run.reports.len(), 1);
    assert_eq!(run.reports[0].elapsed_time, 21_600_000_000);
    assert_eq!(run.reports[0].distance, -5_000_000);
    assert_eq!(run.reports[0].earth_mass, 5_969_985_935_302_391_004_375_945_519);
    assert_eq!(run.reports[0].gravity, 9_822_682_901_626);
    assert_eq!(run.reports[0].velocity, run.state.velocity);
}

#[test]
fn a_run_does_not_go_on_with_air_that_is_too_dense() {
    let config = SimulationConfig { initial_distance: 0, tartarus_mode: true, ..anvil() };
    let first = simulate(&config, 2_000).unwrap();
    let state = first.state;
    let run = resume(&config, first, u128::MAX, 2_000);
    assert_eq!(run.halt, Halt::Degenerate);
    assert_eq!(run.steps, 1);
    assert_eq!(run.state, state);
    // the density fits, the drag does not
    let again = resume(&config, run, u128::MAX / 2, 2_000);
    assert_eq!(again.halt, Halt::Degenerate);
    assert_eq!(again.steps, 1);
    assert_eq!(again.state, state);
}

#[test]
fn a_run_that_is_over_does_not_go_on() {
    let config = SimulationConfig { initial_distance: 200 * KILOMETRE, ..anvil() };
    let whole = simulate(&config, u64::MAX).unwrap();
    let state = whole.state;
    let steps = whole.steps;
    let reports = whole.reports.clone();
    let again = resume(&config, whole, 1_000_000_000, u64::MAX);
    assert_eq!(again.halt, Halt::Finished);
    assert_eq!(again.state, state);
    assert_eq!(again.steps, steps);
    assert_eq!(again.reports, reports);
}

#[test]
fn a_run_goes_on_to_its_new_step_limit() {
    let config = SimulationConfig { initial_distance: 200 * KILOMETRE, ..anvil() };
    let whole = simulate(&config, 5_000).unwrap();
    let first = simulate(&config, 1_000).unwrap();
    assert_eq!(first.halt, Halt::StepLimit);
    let state = first.state;
    // the limit counts the steps of the whole run
    let same = resume(&config, first, 0, 1_000);
    assert_eq!(same.halt, Halt::StepLimit);
    assert_eq!(same.steps, 1_000);
    assert_eq!(same.state, state);
    let less = resume(&config, same, 0, 10);
    assert_eq!(less.halt, Halt::StepLimit);
    assert_eq!(less.steps, 1_000);
    let more = resume(&config, less, 0, 5_000);
    assert_eq!(more.halt, Halt::StepLimit);
    assert_eq!(more.steps, 5_000);
    assert_eq!(more.state, whole.state);
    assert_eq!(more.reports, whole.reports);
}

#[test]
fn a_drop_from_the_surface_does_not_fall() {
    let config = SimulationConfig { initial_distance: 0, ..anvil() };
    let run = simulate(&config, u64::MAX).unwrap();
    assert_eq!(run.halt, Halt::Finished);
    assert_eq!(run.steps, 0);
    assert_eq!(run.state, at(0, 0, 0));
    assert!(run.reports.is_empty());
}

#[test]
fn a_drop_from_below_the_surface_does_not_fall() {
    let config = SimulationConfig { initial_distance: -5 * KILOMETRE, ..anvil() };
    let run = simulate(&config, u64::MAX).unwrap();
    assert_eq!(run.halt, Halt::Finished);
    assert_eq!(run.steps, 0);
    assert_eq!(run.state, at(-5 * KILOMETRE, 0, 0));
    assert!(run.reports.is_empty());
}

#[test]
fn a_run_stops_at_its_step_limit() {
    let config =
        SimulationConfig { initial_distance: 200 * KILOMETRE, time_step: 1_000_000, ..anvil() };
    let run = simulate(&config, 10).unwrap();
    assert_eq!(run.halt, Halt::StepLimit);
    assert_eq!(run.steps, 10);
    assert_eq!(run.state, at(199_492_144_911, 92_339_237_638_344, 10_000_000));
    assert_eq!(run.reports.len(), 10);
    let none = simulate(&config, 0).unwrap();
    assert_eq!(none.halt, Halt::StepLimit);
    assert_eq!(none.steps, 0);
    assert_eq!(none.state, at(200 * KILOMETRE, 0, 0));
}

#[test]
fn the_elapsed_time_counts_the_steps() {
    let config = SimulationConfig { initial_distance: 200 * KILOMETRE, ..anvil() };
    for limit in [0u64, 1, 17, 5_000, u64::MAX] {
        let run = simulate(&config, limit).unwrap();
        assert_eq!(run.state.elapsed_time, run.steps * 10_000);
    }
}

#[test]
fn a_run_reports_the_sampled_steps_in_order() {
    let config =
        SimulationConfig { initial_distance: 200 * KILOMETRE, time_step: 1_000_000, ..anvil() };
    let run = simulate(&config, u64::MAX).unwrap();
    assert_eq!(run.halt, Halt::Finished);
    assert_eq!(run.steps, 275);
    assert_eq!(run.state, at(131_680_093, 149_011_140_944_368, 275_000_000));
    assert_eq!(run.reports.len(), 275);
    assert_eq!(
        run.reports[0],
        Report {
            elapsed_time: 0,
            velocity: 9_233_495_300_192,
            distance: 200_000_000_000,
            gravity: 9_233_495_300_192,
            drag: 0,
            earth_mass: EARTH_MASS,
            density: 0,
        }
    );
    assert_eq!(
        run.reports[100],
        Report {
            elapsed_time: 100_000_000,
            velocity: 937_076_774_250_203,
            distance: 153_259_928_459,
            gravity: 9_366_349_234_319,
            drag: 0,
            earth_mass: EARTH_MASS,
            density: 0,
        }
    );
    assert_eq!(
        run.reports[274],
        Report {
            elapsed_time: 274_000_000,
            velocity: 149_011_140_944_368,
            distance: 280_691_233,
            gravity: 9_821_824_600_444,
            drag: 9_822_352_961_263,
            earth_mass: EARTH_MASS,
            density: 1_220_000_000,
        }
    );
    for (i, report) in run.reports.iter().enumerate() {
        assert_eq!(report.elapsed_time, i as u64 * 1_000_000);
    }
}

#[test]
fn a_run_stops_when_a_step_cannot_be_represented() {
    // an object so fast that its next velocity leaves 64 bits
    let from = at(200 * KILOMETRE, i64::MAX - 5, 0);
    let fast = advance(&anvil(), from, u64::MAX);
    assert_eq!(fast.halt, Halt::Degenerate);
    assert_eq!(fast.steps, 0);
    assert_eq!(fast.state, from);
    assert!(fast.reports.is_empty());
    // an object at the centre of the Earth, where gravity has no value
    let tartarus = SimulationConfig { tartarus_mode: true, ..anvil() };
    let centre = advance(&tartarus, at(-EARTH_RADIUS, 0, 0), u64::MAX);
    assert_eq!(centre.halt, Halt::BelowSeaLevel);
    assert_eq!(centre.steps, 0);
    // a thousand tonnes fall like the anvil
    let heavy = SimulationConfig { mass: 1_000_000_000, time_step: 1_000_000, ..anvil() };
    let run = simulate(&heavy, 100).unwrap();
    assert_eq!(run.halt, Halt::StepLimit);
    assert_eq!(run.steps, 100);
}

#[test]
fn a_configuration_with_a_fault_does_not_run() {
    let faults = [
        (SimulationConfig { mass: 0, ..anvil() }, ConfigurationError::NonPositiveMass),
        (SimulationConfig { time_step: 0, ..anvil() }, ConfigurationError::NonPositiveTimeStep),
        (SimulationConfig { time_step: -1, ..anvil() }, ConfigurationError::NonPositiveTimeStep),
        (SimulationConfig { width: -279_000, ..anvil() }, ConfigurationError::NegativeWidth),
    ];
    for (config, fault) in faults {
        match simulate(&config, u64::MAX) {
            Err(found) => assert_eq!(found, fault),
            Ok(_) => panic!("a run on {:?}", config),
        }
    }
}

#[test]
fn the_object_reaches_its_terminal_velocity() {
    let config = SimulationConfig { initial_distance: 200 * KILOMETRE, ..anvil() };
    let run = simulate(&config, u64::MAX).unwrap();
    // drag balances gravity at about 149 m/s in sea-level air
    let last = run.reports[run.reports.len() - 1];
    assert!(last.gravity.abs_diff(last.drag) < last.gravity / 1_000);
    assert_eq!(run.state.velocity / METRE_PER_SECOND, 149);
}
