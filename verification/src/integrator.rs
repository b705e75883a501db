//! One step of the forward-Euler integration, the test that ends a fall, and
//! the test that picks the steps to report.

use crate::config::SimulationConfig;
use crate::drag::{drag_force, drag_force_value, drag_representable, lemma_drag_not_negative};
use crate::gravity::{
    earth_mass_enclosed, enclosed_mass, enclosed_mass_representable, gravity_force,
    gravity_force_value, gravity_representable, lemma_gravity_exact, radius, radius_at,
};
use crate::units::{
    div_toward_zero, lemma_toward_zero_bounds, lemma_toward_zero_ordered, toward_zero,
    wide_product,
};
use vstd::arithmetic::div_mod::lemma_div_is_ordered_by_denominator;
use vstd::prelude::*;

verus! {

/// The altitude below which the air drags: the altitude at which the
/// highest band of the density table begins, ten band widths, in
/// micrometres.
pub const TABLE_LIMIT: i64 = 100_000_000_000;

/// Nine days, the length of a fall in Tartarus mode, in microseconds.
pub const TARTARUS_DURATION: u64 = 777_600_000_000;

/// Every second of the first twenty seconds is reported (microseconds).
pub const EARLY_DETAIL: u64 = 20_000_000;

/// Every second spent below five times the Karman line, and above the
/// surface, is reported (micrometres).
pub const ENTRY_DETAIL: i64 = 500_000_000_000;

/// Every sixth hour is reported (seconds).
pub const HEARTBEAT: u64 = 21_600;

/// Where the object is, how fast it falls, and for how long it has fallen.
#[derive(Clone, Copy, Debug, PartialEq, Eq, Structural)]
pub struct SimulationState {
    /// The altitude above the surface, in micrometres; negative below it.
    pub distance: i64,
    /// The velocity toward the Earth, in picometres per second.
    pub velocity: i64,
    /// The time since the drop, in microseconds.
    pub elapsed_time: u64,
}

/// What one step saw: the time and the altitude at its start, the velocity
/// that it reached, and the accelerations, the attracting mass and the air
/// density that it used.
#[derive(Clone, Copy, Debug, PartialEq, Eq, Structural)]
pub struct Report {
    /// The time at the start of the step, in microseconds.
    pub elapsed_time: u64,
    /// The velocity at the end of the step, in picometres per second.
    pub velocity: i64,
    /// The altitude at the start of the step, in micrometres.
    pub distance: i64,
    /// The acceleration of gravity, in picometres per second squared.
    pub gravity: u128,
    /// The deceleration of drag, in picometres per second squared.
    pub drag: u128,
    /// The mass of the Earth that attracted the object, in grams.
    pub earth_mass: u128,
    /// The density of the air, in micrograms per cubic metre.
    pub density: u128,
}

/// The state after a step, with what the step saw.
#[derive(Clone, Copy, Debug, PartialEq, Eq, Structural)]
pub struct Transition {
    pub state: SimulationState,
    pub report: Report,
}

/// A quantity of the model has left the range of the machine arithmetic, or
/// the object is at the centre of the Earth, where gravity has no value.
#[derive(Clone, Copy, Debug, PartialEq, Eq, Structural)]
pub struct NumericDegeneracy;

/// The state before the first step: at the initial distance, at rest, at
/// time zero.
pub open spec fn initial_state(config: SimulationConfig) -> SimulationState {
    SimulationState { distance: config.initial_distance, velocity: 0, elapsed_time: 0 }
}

/// The speed through the air, in millimetres per second, of a velocity in
/// picometres per second.
pub open spec fn air_speed(velocity: int) -> int {
    toward_zero(velocity, 1_000_000_000)
}

/// The drag units that give one gram an acceleration of one picometre per
/// second squared: a thousandth of the drag units in a piconewton.
pub const DRAG_UNITS_PER_GRAM: u128 = 200_000_000_000_000;

/// The acceleration (picometres per second squared) that a drag force (drag
/// units) gives a mass (grams), rounded down. This is the one rounding
/// between the drag force and the velocity.
pub open spec fn per_mass(force: int, mass: int) -> int {
    force / (DRAG_UNITS_PER_GRAM * mass)
}

/// The acceleration of gravity at the altitude of a state: the force
/// between one gram and the mass of the Earth below it, at its distance
/// from the centre. In femtonewtons per gram that is the acceleration in
/// picometres per second squared, and it is the same for every mass that
/// falls (see [`lemma_gravity_proportional_to_mass`]).
///
/// [`lemma_gravity_proportional_to_mass`]: crate::gravity::lemma_gravity_proportional_to_mass
pub open spec fn gravity_acceleration(state: SimulationState) -> int {
    gravity_force_value(
        1,
        enclosed_mass(state.distance as int),
        radius_at(state.distance as int),
    )
}

/// The deceleration of drag on the object: the drag force by its mass below
/// the table limit, nothing at or above it.
pub open spec fn drag_acceleration(
    config: SimulationConfig,
    state: SimulationState,
    density: int,
) -> int {
    if state.distance < TABLE_LIMIT {
        per_mass(
            drag_force_value(density, air_speed(state.velocity as int), config.width as int),
            config.mass as int,
        )
    } else {
        0
    }
}

/// The velocity at the end of a step.
pub open spec fn velocity_after(
    config: SimulationConfig,
    state: SimulationState,
    density: int,
) -> int {
    state.velocity + toward_zero(
        (gravity_acceleration(state) - drag_acceleration(config, state, density))
            * config.time_step,
        1_000_000,
    )
}

/// The way made in one time step at a velocity, in micrometres, rounded
/// toward zero.
pub open spec fn displacement(velocity: int, time_step: int) -> int {
    toward_zero(velocity * time_step, 1_000_000_000_000)
}

/// The altitude at the end of a step: the new velocity is applied to the
/// old altitude.
pub open spec fn distance_after(
    config: SimulationConfig,
    state: SimulationState,
    density: int,
) -> int {
    state.distance - displacement(velocity_after(config, state, density), config.time_step as int)
}

/// The time at the end of a step.
pub open spec fn elapsed_after(config: SimulationConfig, state: SimulationState) -> int {
    state.elapsed_time + config.time_step
}

/// Whether the accelerations of a step can be computed: the mass that
/// attracts and the force of gravity on a gram have a value that can be
/// held, and so has the drag force below the table limit.
pub open spec fn forces_representable(
    config: SimulationConfig,
    state: SimulationState,
    density: int,
) -> bool {
    &&& enclosed_mass_representable(state.distance as int)
    &&& gravity_representable(
        1,
        enclosed_mass(state.distance as int),
        radius_at(state.distance as int),
    )
    &&& (state.distance < TABLE_LIMIT ==> drag_representable(
        density,
        air_speed(state.velocity as int),
        config.width as int,
    ))
}

/// Whether a step can be taken: its forces can be computed and the state
/// that it leads to fits the fields of a state.
pub open spec fn step_representable(
    config: SimulationConfig,
    state: SimulationState,
    density: int,
) -> bool {
    &&& forces_representable(config, state, density)
    &&& i64::MIN <= velocity_after(config, state, density) <= i64::MAX
    &&& i64::MIN <= distance_after(config, state, density) <= i64::MAX
    &&& elapsed_after(config, state) <= u64::MAX
}

/// The state at the end of a step.
pub open spec fn state_after(
    config: SimulationConfig,
    state: SimulationState,
    density: int,
) -> SimulationState {
    SimulationState {
        distance: distance_after(config, state, density) as i64,
        velocity: velocity_after(config, state, density) as i64,
        elapsed_time: elapsed_after(config, state) as u64,
    }
}

/// What a step reports.
pub open spec fn report_after(
    config: SimulationConfig,
    state: SimulationState,
    density: int,
) -> Report {
    Report {
        elapsed_time: state.elapsed_time,
        velocity: velocity_after(config, state, density) as i64,
        distance: state.distance,
        gravity: gravity_acceleration(state) as u128,
        drag: drag_acceleration(config, state, density) as u128,
        earth_mass: enclosed_mass(state.distance as int) as u128,
        density: density as u128,
    }
}

/// Whether the fall goes on from a state. In Tartarus mode it goes on until
/// nine days have passed, whatever the altitude. Otherwise it goes on while
/// one more time step at the present velocity would leave the object above
/// the surface.
pub open spec fn continues(config: SimulationConfig, state: SimulationState) -> bool {
    if config.tartarus_mode {
        state.elapsed_time < TARTARUS_DURATION
    } else {
        state.distance - displacement(state.velocity as int, config.time_step as int) > 0
    }
}

/// Whether a step that starts at `elapsed_time` and `distance` is reported:
/// it is the first step of a second, and the second is one of the first
/// twenty, or the object is above the surface and within five times the
/// Karman line of it, or the second is a multiple of six hours.
pub open spec fn sampled(elapsed_time: int, distance: int, time_step: int) -> bool {
    &&& elapsed_time % 1_000_000 < time_step
    &&& {
        ||| elapsed_time < EARLY_DETAIL
        ||| 0 < distance < ENTRY_DETAIL
        ||| (elapsed_time / 1_000_000) % (HEARTBEAT as int) == 0
    }
}

/// At or above the table limit, where no air drags, the mass of the object
/// does not matter: two objects that differ in mass alone take the same
/// step from the same state.
pub proof fn lemma_mass_does_not_matter_above_the_air(
    light: SimulationConfig,
    heavy: SimulationConfig,
    state: SimulationState,
    density: int,
)
    requires
        heavy == (SimulationConfig { mass: heavy.mass, ..light }),
        state.distance >= TABLE_LIMIT,
    ensures
        step_representable(heavy, state, density) == step_representable(light, state, density),
        state_after(heavy, state, density) == state_after(light, state, density),
        report_after(heavy, state, density) == report_after(light, state, density),
{
}

/// Of two objects that differ in mass alone, one step from the same state
/// through the same air leaves the heavier one at least as fast as the
/// lighter one: gravity accelerates both alike, and the same drag slows the
/// heavier one less.
pub proof fn lemma_heavier_object_keeps_more_velocity(
    light: SimulationConfig,
    heavy: SimulationConfig,
    state: SimulationState,
    density: int,
)
    requires
        light.valid(),
        0 < light.mass <= heavy.mass,
        heavy == (SimulationConfig { mass: heavy.mass, ..light }),
        density >= 0,
    ensures
        drag_acceleration(heavy, state, density) <= drag_acceleration(light, state, density),
        velocity_after(heavy, state, density) >= velocity_after(light, state, density),
{
    let g = gravity_acceleration(state);
    let slow_light = drag_acceleration(light, state, density);
    let slow_heavy = drag_acceleration(heavy, state, density);
    if state.distance < TABLE_LIMIT {
        let speed = air_speed(state.velocity as int);
        let width = light.width as int;
        let force = drag_force_value(density, speed, width);
        lemma_drag_not_negative(density, speed, width);
        lemma_div_is_ordered_by_denominator(
            force,
            DRAG_UNITS_PER_GRAM * light.mass,
            DRAG_UNITS_PER_GRAM * heavy.mass,
        );
    }
    let dt = light.time_step as int;
    assert((g - slow_light) * dt <= (g - slow_heavy) * dt) by (nonlinear_arith)
        requires
            slow_heavy <= slow_light,
            dt > 0,
    ;
    lemma_toward_zero_ordered((g - slow_light) * dt, (g - slow_heavy) * dt, 1_000_000);
}

/// The state before the first step.
pub fn start(config: &SimulationConfig) -> (state: SimulationState)
    ensures
        state == initial_state(*config),
{
    SimulationState { distance: config.initial_distance, velocity: 0, elapsed_time: 0 }
}

/// Whether the fall goes on from `state`.
pub fn should_continue(config: &SimulationConfig, state: &SimulationState) -> (go: bool)
    ensures
        go == continues(*config, *state),
{
    if config.tartarus_mode {
        state.elapsed_time < TARTARUS_DURATION
    } else {
        let product: i128 = wide_product(state.velocity, config.time_step);
        let way: i128 = div_toward_zero(product, 1_000_000_000_000);
        proof {
            lemma_toward_zero_bounds(product as int, 1_000_000_000_000);
        }
        state.distance as i128 - way > 0
    }
}

/// Whether the step that starts at `elapsed_time` and `distance` is reported.
pub fn report_due(elapsed_time: u64, distance: i64, time_step: i64) -> (due: bool)
    ensures
        due == sampled(elapsed_time as int, distance as int, time_step as int),
{
    let second: u64 = elapsed_time / 1_000_000;
    let part: u64 = elapsed_time % 1_000_000;
    time_step > 0 && part < time_step as u64 && (elapsed_time < EARLY_DETAIL || (0 < distance
        && distance < ENTRY_DETAIL) || second % HEARTBEAT == 0)
}

/// The velocity after a time step under the two accelerations; `None`
/// when it does not fit in 64 bits.
fn accelerate(velocity: i64, gravity: u128, drag: u128, time_step: i64) -> (after: Option<i64>)
    requires
        time_step > 0,
    ensures
        after.is_some() <==> i64::MIN <= velocity + toward_zero(
            (gravity - drag) * time_step,
            1_000_000,
        ) <= i64::MAX,
        after.is_some() ==> after.unwrap() == velocity + toward_zero(
            (gravity - drag) * time_step,
            1_000_000,
        ),
{
    let dt: u128 = time_step as u128;
    if gravity >= drag {
        let net: u128 = gravity - drag;
        proof {
            assert((gravity - drag) * time_step == net * dt) by (nonlinear_arith)
                requires
                    net == gravity - drag,
                    dt == time_step,
            ;
            assert(net * dt >= 0) by (nonlinear_arith)
                requires
                    net >= 0,
                    dt >= 0,
            ;
        }
        match net.checked_mul(dt) {
            Some(product) => {
                let gain: u128 = product / 1_000_000;
                if gain > u64::MAX as u128 {
                    None
                } else {
                    let sum: i128 = velocity as i128 + gain as i128;
                    if sum > i64::MAX as i128 {
                        None
                    } else {
                        Some(sum as i64)
                    }
                }
            },
            None => None,
        }
    } else {
        let net: u128 = drag - gravity;
        proof {
            assert((gravity - drag) * time_step == -(net * dt)) by (nonlinear_arith)
                requires
                    net == drag - gravity,
                    dt == time_step,
            ;
            assert(net * dt > 0) by (nonlinear_arith)
                requires
                    net > 0,
                    dt > 0,
            ;
        }
        match net.checked_mul(dt) {
            Some(product) => {
                let loss: u128 = product / 1_000_000;
                if loss > u64::MAX as u128 {
                    None
                } else {
                    let sum: i128 = velocity as i128 - loss as i128;
                    if sum < i64::MIN as i128 {
                        None
                    } else {
                        Some(sum as i64)
                    }
                }
            },
            None => None,
        }
    }
}

/// The altitude after a time step at a velocity; `None` when it does not
/// fit in 64 bits.
fn descend(distance: i64, velocity: i64, time_step: i64) -> (after: Option<i64>)
    ensures
        after.is_some() <==> i64::MIN <= distance - displacement(
            velocity as int,
            time_step as int,
        ) <= i64::MAX,
        after.is_some() ==> after.unwrap() == distance - displacement(
            velocity as int,
            time_step as int,
        ),
{
    let product: i128 = wide_product(velocity, time_step);
    let way: i128 = div_toward_zero(product, 1_000_000_000_000);
    proof {
        lemma_toward_zero_bounds(product as int, 1_000_000_000_000);
    }
    let after: i128 = distance as i128 - way;
    if after < i64::MIN as i128 || after > i64::MAX as i128 {
        None
    } else {
        Some(after as i64)
    }
}

/// The speed through the air of a velocity.
fn speed_of(velocity: i64) -> (speed: i64)
    ensures
        speed == air_speed(velocity as int),
{
    proof {
        lemma_toward_zero_bounds(velocity as int, 1_000_000_000);
    }
    div_toward_zero(velocity as i128, 1_000_000_000) as i64
}

/// Takes one step of the fall through air of the given density.
///
/// The accelerations of gravity and drag are taken at the old state, the
/// velocity is advanced by their difference, the altitude by the new
/// velocity, and the time by the time step. The step fails, and changes
/// nothing, exactly when one of these quantities cannot be represented.
pub fn step(config: &SimulationConfig, state: &SimulationState, density: u128) -> (out: Result<
    Transition,
    NumericDegeneracy,
>)
    requires
        config.valid(),
    ensures
        out.is_ok() <==> step_representable(*config, *state, density as int),
        out.is_ok() ==> out.unwrap().state == state_after(*config, *state, density as int),
        out.is_ok() ==> out.unwrap().report == report_after(*config, *state, density as int),
{
    let earth_mass: u128 = match earth_mass_enclosed(state.distance) {
        Some(m) => m,
        None => {
            return Err(NumericDegeneracy);
        },
    };
    let gravity: u128 = match gravity_force(1, earth_mass, radius(state.distance)) {
        Some(f) => f.whole,
        None => {
            return Err(NumericDegeneracy);
        },
    };
    proof {
        lemma_gravity_exact(1, earth_mass as int, radius_at(state.distance as int));
    }
    let drag: u128 = if state.distance < TABLE_LIMIT {
        let force: u128 = match drag_force(
            density,
            speed_of(state.velocity),
            config.width as u64,
        ) {
            Some(f) => f,
            None => {
                return Err(NumericDegeneracy);
            },
        };
        let mass: u128 = config.mass as u128;
        force / (DRAG_UNITS_PER_GRAM * mass)
    } else {
        0
    };
    let velocity: i64 = match accelerate(state.velocity, gravity, drag, config.time_step) {
        Some(v) => v,
        None => {
            return Err(NumericDegeneracy);
        },
    };
    let distance: i64 = match descend(state.distance, velocity, config.time_step) {
        Some(d) => d,
        None => {
            return Err(NumericDegeneracy);
        },
    };
    let elapsed_time: u64 = match state.elapsed_time.checked_add(config.time_step as u64) {
        Some(t) => t,
        None => {
            return Err(NumericDegeneracy);
        },
    };
    Ok(
        Transition {
            state: SimulationState { distance, velocity, elapsed_time },
            report: Report {
                elapsed_time: state.elapsed_time,
                velocity,
                distance: state.distance,
                gravity,
                drag,
                earth_mass,
                density,
            },
        },
    )
}

} // verus!
