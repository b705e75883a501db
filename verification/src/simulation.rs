//! The fall as a whole: steps taken one after another until the fall ends.

use crate::atmosphere::{air_at, barometric_density, density, ideal_gas_density, AirDensity};
use crate::config::{ConfigurationError, SimulationConfig};
use crate::integrator::{
    continues, displacement, initial_state, report_after, report_due, sampled, should_continue,
    start,
    state_after, step, step_representable, Report, SimulationState, TARTARUS_DURATION,
};
use vstd::prelude::*;

verus! {

/// Why a run stopped.
#[derive(Clone, Copy, Debug, PartialEq, Eq, Structural)]
pub enum Halt {
    /// The fall is over: the object is about to reach the surface or, in
    /// Tartarus mode, nine days have passed.
    Finished,
    /// The step limit was reached before the fall was over.
    StepLimit,
    /// The object is below sea level, where the air density depends on a
    /// power that the caller computes. The caller raises the base that
    /// [`density`] hands back to the power 5.25588 and goes on with
    /// [`resume`].
    BelowSeaLevel,
    /// The next step cannot be represented.
    Degenerate,
}

/// How a run went: where it stopped and why, after how many steps, and what
/// the sampled steps reported, oldest first.
#[derive(Debug)]
pub struct Run {
    pub state: SimulationState,
    pub steps: u64,
    pub halt: Halt,
    pub reports: Vec<Report>,
}

/// The mathematical course of a run.
pub struct Course {
    pub state: SimulationState,
    pub steps: nat,
    pub halt: Halt,
    pub reports: Seq<Report>,
}

/// What the step from `state` adds to the reports: its report if it is
/// sampled, nothing if not.
pub open spec fn sample(config: SimulationConfig, state: SimulationState, density: int) -> Seq<
    Report,
> {
    if sampled(state.elapsed_time as int, state.distance as int, config.time_step as int) {
        seq![report_after(config, state, density)]
    } else {
        Seq::empty()
    }
}

/// The course of a run of at most `limit` steps from `state`.
///
/// Before each step the run stops if the fall is over, then if no step is
/// left, then if the object is below sea level, then if the step cannot be
/// represented. Otherwise it takes the step through the air of that
/// altitude.
pub open spec fn course(config: SimulationConfig, state: SimulationState, limit: nat) -> Course
    decreases limit,
{
    if !continues(config, state) {
        Course { state, steps: 0, halt: Halt::Finished, reports: Seq::empty() }
    } else if limit == 0 {
        Course { state, steps: 0, halt: Halt::StepLimit, reports: Seq::empty() }
    } else {
        match air_at(state.distance as int) {
            AirDensity::Barometric { .. } => Course {
                state,
                steps: 0,
                halt: Halt::BelowSeaLevel,
                reports: Seq::empty(),
            },
            AirDensity::Known(rho) => if !step_representable(config, state, rho as int) {
                Course { state, steps: 0, halt: Halt::Degenerate, reports: Seq::empty() }
            } else {
                let rest = course(
                    config,
                    state_after(config, state, rho as int),
                    (limit - 1) as nat,
                );
                Course {
                    state: rest.state,
                    steps: rest.steps + 1,
                    halt: rest.halt,
                    reports: sample(config, state, rho as int) + rest.reports,
                }
            },
        }
    }
}

/// The density of the air for the step from `state`: the closed form at or
/// above sea level; below it the ideal gas density at `ratio` times the
/// pressure at sea level, if it fits in 128 bits.
pub open spec fn density_for(state: SimulationState, ratio: int) -> Option<int> {
    match air_at(state.distance as int) {
        AirDensity::Known(rho) => Some(rho as int),
        AirDensity::Barometric { .. } => if ideal_gas_density(ratio) <= u128::MAX {
            Some(ideal_gas_density(ratio))
        } else {
            None
        },
    }
}

/// The course of a run of at most `limit` steps from `state` whose first
/// step, if it starts below sea level, goes through air at `ratio` times
/// the pressure at sea level.
pub open spec fn course_with(
    config: SimulationConfig,
    state: SimulationState,
    ratio: int,
    limit: nat,
) -> Course {
    if !continues(config, state) {
        Course { state, steps: 0, halt: Halt::Finished, reports: Seq::empty() }
    } else if limit == 0 {
        Course { state, steps: 0, halt: Halt::StepLimit, reports: Seq::empty() }
    } else {
        match density_for(state, ratio) {
            None => Course { state, steps: 0, halt: Halt::Degenerate, reports: Seq::empty() },
            Some(rho) => if !step_representable(config, state, rho) {
                Course { state, steps: 0, halt: Halt::Degenerate, reports: Seq::empty() }
            } else {
                let rest = course(config, state_after(config, state, rho), (limit - 1) as nat);
                Course {
                    state: rest.state,
                    steps: rest.steps + 1,
                    halt: rest.halt,
                    reports: sample(config, state, rho) + rest.reports,
                }
            },
        }
    }
}

/// The steps that a run of `taken` steps may still take under a limit of
/// `max_steps` steps in all.
pub open spec fn steps_left(taken: nat, max_steps: nat) -> nat {
    if max_steps >= taken {
        (max_steps - taken) as nat
    } else {
        0
    }
}

impl Run {
    /// This run is `before`, gone on with until `max_steps` steps in all,
    /// with `ratio` for a first step below sea level.
    pub open spec fn resumes(
        &self,
        before: Run,
        config: SimulationConfig,
        ratio: int,
        max_steps: nat,
    ) -> bool {
        let c = course_with(config, before.state, ratio, steps_left(before.steps as nat, max_steps));
        &&& self.state == c.state
        &&& self.steps == before.steps + c.steps
        &&& self.halt == c.halt
        &&& self.reports@ == before.reports@ + c.reports
    }

    /// This run went as the course from `from` with at most `limit` steps.
    pub open spec fn follows(
        &self,
        config: SimulationConfig,
        from: SimulationState,
        limit: nat,
    ) -> bool {
        let c = course(config, from, limit);
        &&& self.state == c.state
        &&& self.steps == c.steps
        &&& self.halt == c.halt
        &&& self.reports@ == c.reports
    }
}

/// Goes on with a run that has taken `taken` steps and gathered `reports`,
/// from `from`, for at most `limit` steps more.
fn proceed(
    config: &SimulationConfig,
    from: SimulationState,
    limit: u64,
    taken: u64,
    reports: Vec<Report>,
) -> (run: Run)
    requires
        config.valid(),
        taken + limit <= u64::MAX,
    ensures
        run.state == course(*config, from, limit as nat).state,
        run.steps == taken + course(*config, from, limit as nat).steps,
        run.halt == course(*config, from, limit as nat).halt,
        run.reports@ == reports@ + course(*config, from, limit as nat).reports,
{
    let mut state = from;
    let mut steps: u64 = 0;
    let mut halt = Halt::Finished;
    let mut reports = reports;
    let ghost gathered = reports@;
    let ghost whole = course(*config, from, limit as nat);
    loop
        invariant_except_break
            steps <= limit,
            taken + limit <= u64::MAX,
            config.valid(),
            whole == course(*config, from, limit as nat),
            ({
                let rest = course(*config, state, (limit - steps) as nat);
                &&& whole.state == rest.state
                &&& whole.halt == rest.halt
                &&& whole.steps == steps + rest.steps
                &&& gathered + whole.reports == reports@ + rest.reports
            }),
        ensures
            steps <= limit,
            taken + limit <= u64::MAX,
            state == whole.state,
            steps == whole.steps,
            halt == whole.halt,
            reports@ == gathered + whole.reports,
        decreases limit - steps,
    {
        let ghost left = (limit - steps) as nat;
        if !should_continue(config, &state) {
            halt = Halt::Finished;
            assert(reports@ + Seq::<Report>::empty() == reports@);
            break ;
        }
        if steps == limit {
            halt = Halt::StepLimit;
            assert(reports@ + Seq::<Report>::empty() == reports@);
            break ;
        }
        match density(state.distance) {
            AirDensity::Barometric { .. } => {
                halt = Halt::BelowSeaLevel;
                assert(reports@ + Seq::<Report>::empty() == reports@);
                break ;
            },
            AirDensity::Known(rho) => {
                match step(config, &state, rho) {
                    Err(_) => {
                        halt = Halt::Degenerate;
                        assert(reports@ + Seq::<Report>::empty() == reports@);
                        break ;
                    },
                    Ok(taken_step) => {
                        let ghost before = reports@;
                        let ghost rest = course(*config, taken_step.state, (left - 1) as nat);
                        if report_due(state.elapsed_time, state.distance, config.time_step) {
                            reports.push(taken_step.report);
                        }
                        assert(reports@ == before + sample(*config, state, rho as int));
                        assert(reports@ + rest.reports == before + (sample(
                            *config,
                            state,
                            rho as int,
                        ) + rest.reports));
                        state = taken_step.state;
                        steps = steps + 1;
                    },
                }
            },
        }
    }
    Run { state, steps: taken + steps, halt, reports }
}

/// Runs the fall from `from` for at most `max_steps` steps.
pub fn advance(config: &SimulationConfig, from: SimulationState, max_steps: u64) -> (run: Run)
    requires
        config.valid(),
    ensures
        run.follows(*config, from, max_steps as nat),
{
    let run = proceed(config, from, max_steps, 0, Vec::new());
    assert(Seq::<Report>::empty() + course(*config, from, max_steps as nat).reports == course(
        *config,
        from,
        max_steps as nat,
    ).reports);
    run
}

/// Goes on with a run until it has taken `max_steps` steps in all.
///
/// Where the run stopped below sea level, its next step is taken through
/// air of the density that `pressure_ratio` gives: the pressure there over
/// the pressure at sea level, in parts per billion. For a next step at or
/// above sea level the ratio is not looked at.
pub fn resume(config: &SimulationConfig, run: Run, pressure_ratio: u128, max_steps: u64) -> (out:
    Run)
    requires
        config.valid(),
    ensures
        out.resumes(run, *config, pressure_ratio as int, max_steps as nat),
{
    let state = run.state;
    let steps = run.steps;
    let mut reports = run.reports;
    let ghost gathered = reports@;
    let ghost limit = steps_left(steps as nat, max_steps as nat);
    let ghost next = course_with(*config, state, pressure_ratio as int, limit);
    if !should_continue(config, &state) {
        assert(gathered + next.reports == gathered);
        return Run { state, steps, halt: Halt::Finished, reports };
    }
    if steps >= max_steps {
        assert(gathered + next.reports == gathered);
        return Run { state, steps, halt: Halt::StepLimit, reports };
    }
    let air = match density(state.distance) {
        AirDensity::Known(rho) => Some(rho),
        AirDensity::Barometric { .. } => barometric_density(pressure_ratio),
    };
    let rho = match air {
        Some(rho) => rho,
        None => {
            assert(gathered + next.reports == gathered);
            return Run { state, steps, halt: Halt::Degenerate, reports };
        },
    };
    match step(config, &state, rho) {
        Err(_) => {
            assert(gathered + next.reports == gathered);
            Run { state, steps, halt: Halt::Degenerate, reports }
        },
        Ok(taken) => {
            if report_due(state.elapsed_time, state.distance, config.time_step) {
                reports.push(taken.report);
            }
            let ghost rest = course(*config, taken.state, (limit - 1) as nat);
            assert(reports@ == gathered + sample(*config, state, rho as int));
            assert(reports@ + rest.reports == gathered + (sample(*config, state, rho as int)
                + rest.reports));
            proof {
                lemma_steps_within_limit(*config, taken.state, (limit - 1) as nat);
            }
            proceed(config, taken.state, max_steps - steps - 1, steps + 1, reports)
        },
    }
}

/// Checks the configuration and runs the fall from its start for at most
/// `max_steps` steps.
pub fn simulate(config: &SimulationConfig, max_steps: u64) -> (out: Result<
    Run,
    ConfigurationError,
>)
    ensures
        out.is_ok() <==> config.valid(),
        out matches Err(fault) ==> config.fault() == Some(fault),
        out matches Ok(run) ==> run.follows(*config, initial_state(*config), max_steps as nat),
{
    match config.validate() {
        Err(fault) => Err(fault),
        Ok(_) => Ok(advance(config, start(config), max_steps)),
    }
}

/// A run takes no more steps than its limit, and stops at the limit only
/// when it has taken them all.
pub proof fn lemma_steps_within_limit(
    config: SimulationConfig,
    from: SimulationState,
    limit: nat,
)
    ensures
        course(config, from, limit).steps <= limit,
        course(config, from, limit).halt == Halt::StepLimit ==> course(config, from, limit).steps
            == limit,
    decreases limit,
{
    if continues(config, from) && limit > 0 {
        if let AirDensity::Known(rho) = air_at(from.distance as int) {
            if step_representable(config, from, rho as int) {
                lemma_steps_within_limit(
                    config,
                    state_after(config, from, rho as int),
                    (limit - 1) as nat,
                );
            }
        }
    }
}

/// What the reason of a stop says of the state at which the run stopped.
pub proof fn lemma_halt_describes_last_state(
    config: SimulationConfig,
    from: SimulationState,
    limit: nat,
)
    ensures
        ({
            let c = course(config, from, limit);
            match c.halt {
                Halt::Finished => !continues(config, c.state),
                Halt::StepLimit => continues(config, c.state),
                Halt::BelowSeaLevel => continues(config, c.state) && c.state.distance < 0,
                Halt::Degenerate => {
                    &&& continues(config, c.state)
                    &&& air_at(c.state.distance as int) matches AirDensity::Known(rho)
                    &&& !step_representable(config, c.state, rho as int)
                },
            }
        }),
    decreases limit,
{
    if continues(config, from) && limit > 0 {
        if let AirDensity::Known(rho) = air_at(from.distance as int) {
            if step_representable(config, from, rho as int) {
                lemma_halt_describes_last_state(
                    config,
                    state_after(config, from, rho as int),
                    (limit - 1) as nat,
                );
            }
        }
    }
}

/// Outside Tartarus mode a fall that is over has the ground within one
/// step: one more time step at its last velocity would not leave the object
/// above the surface.
pub proof fn lemma_finished_fall_is_at_the_ground(
    config: SimulationConfig,
    from: SimulationState,
    limit: nat,
)
    requires
        !config.tartarus_mode,
        course(config, from, limit).halt == Halt::Finished,
    ensures
        course(config, from, limit).state.distance - displacement(
            course(config, from, limit).state.velocity as int,
            config.time_step as int,
        ) <= 0,
{
    lemma_halt_describes_last_state(config, from, limit);
}

/// At or above sea level a run does not look at the pressure ratio.
pub proof fn lemma_ratio_unused_above_sea_level(
    config: SimulationConfig,
    from: SimulationState,
    ratio: int,
    limit: nat,
)
    requires
        from.distance >= 0,
    ensures
        course_with(config, from, ratio, limit) == course(config, from, limit),
{
}

/// `first` followed by `second`: the state and the reason of the stop of
/// the second, the steps and the reports of both.
pub open spec fn followed_by(first: Course, second: Course) -> Course {
    Course {
        state: second.state,
        steps: first.steps + second.steps,
        halt: second.halt,
        reports: first.reports + second.reports,
    }
}

/// A run that stopped at its step limit and is taken up again from where it
/// stopped goes as one run with the two limits together.
pub proof fn lemma_course_taken_up_again(
    config: SimulationConfig,
    from: SimulationState,
    first: nat,
    more: nat,
)
    requires
        course(config, from, first).halt == Halt::StepLimit,
    ensures
        course(config, from, first + more) == followed_by(
            course(config, from, first),
            course(config, course(config, from, first).state, more),
        ),
    decreases first,
{
    let a = course(config, from, first);
    let b = course(config, a.state, more);
    let whole = course(config, from, first + more);
    if first == 0 {
        assert(a.reports + b.reports =~= b.reports);
    } else {
        match air_at(from.distance as int) {
            AirDensity::Known(rho) => {
                let next = state_after(config, from, rho as int);
                lemma_course_taken_up_again(config, next, (first - 1) as nat, more);
                let rest = course(config, next, (first - 1) as nat);
                let head = sample(config, from, rho as int);
                assert(((first + more) - 1) as nat == (first - 1) as nat + more);
                assert((head + rest.reports) + b.reports =~= head + (rest.reports + b.reports));
            },
            AirDensity::Barometric { .. } => {},
        }
    }
}

/// The elapsed time grows by one time step with every step.
pub proof fn lemma_elapsed_time_counts_steps(
    config: SimulationConfig,
    from: SimulationState,
    limit: nat,
)
    requires
        config.valid(),
    ensures
        course(config, from, limit).state.elapsed_time == from.elapsed_time + course(
            config,
            from,
            limit,
        ).steps * config.time_step,
    decreases limit,
{
    if continues(config, from) && limit > 0 {
        if let AirDensity::Known(rho) = air_at(from.distance as int) {
            if step_representable(config, from, rho as int) {
                let next = state_after(config, from, rho as int);
                let rest = course(config, next, (limit - 1) as nat);
                lemma_elapsed_time_counts_steps(config, next, (limit - 1) as nat);
                assert((rest.steps + 1) * config.time_step == rest.steps * config.time_step
                    + config.time_step) by (nonlinear_arith);
            }
        }
    }
    let steps = course(config, from, limit).steps;
    if steps == 0 {
        assert(steps * config.time_step == 0) by (nonlinear_arith)
            requires
                steps == 0,
        ;
    }
}

/// In Tartarus mode a fall that is over has lasted nine days, and less than
/// one time step more, whatever the altitude, the mass and the width.
pub proof fn lemma_tartarus_lasts_nine_days(
    config: SimulationConfig,
    from: SimulationState,
    limit: nat,
)
    requires
        config.valid(),
        config.tartarus_mode,
        from.elapsed_time < TARTARUS_DURATION,
        course(config, from, limit).halt == Halt::Finished,
    ensures
        TARTARUS_DURATION <= course(config, from, limit).state.elapsed_time < TARTARUS_DURATION
            + config.time_step,
    decreases limit,
{
    if limit > 0 {
        if let AirDensity::Known(rho) = air_at(from.distance as int) {
            if step_representable(config, from, rho as int) {
                let next = state_after(config, from, rho as int);
                if next.elapsed_time < TARTARUS_DURATION {
                    lemma_tartarus_lasts_nine_days(config, next, (limit - 1) as nat);
                }
            }
        }
    }
}

/// What holds of a run holds of a run that was taken up below sea level:
/// it takes no more steps than its limit, its elapsed time grows by one
/// time step with every step, and in Tartarus mode, once it is over, it has
/// lasted nine days and less than one time step more.
pub proof fn lemma_resumed_run_keeps_time(
    config: SimulationConfig,
    from: SimulationState,
    ratio: int,
    limit: nat,
)
    requires
        config.valid(),
    ensures
        course_with(config, from, ratio, limit).steps <= limit,
        course_with(config, from, ratio, limit).state.elapsed_time == from.elapsed_time
            + course_with(config, from, ratio, limit).steps * config.time_step,
        (config.tartarus_mode && from.elapsed_time < TARTARUS_DURATION && course_with(
            config,
            from,
            ratio,
            limit,
        ).halt == Halt::Finished) ==> TARTARUS_DURATION <= course_with(
            config,
            from,
            ratio,
            limit,
        ).state.elapsed_time < TARTARUS_DURATION + config.time_step,
{
    let c = course_with(config, from, ratio, limit);
    if continues(config, from) && limit > 0 {
        if let Some(rho) = density_for(from, ratio) {
            if step_representable(config, from, rho) {
                let next = state_after(config, from, rho);
                let rest = course(config, next, (limit - 1) as nat);
                lemma_steps_within_limit(config, next, (limit - 1) as nat);
                lemma_elapsed_time_counts_steps(config, next, (limit - 1) as nat);
                assert((rest.steps + 1) * config.time_step == rest.steps * config.time_step
                    + config.time_step) by (nonlinear_arith);
                if config.tartarus_mode && next.elapsed_time < TARTARUS_DURATION && rest.halt
                    == Halt::Finished {
                    lemma_tartarus_lasts_nine_days(config, next, (limit - 1) as nat);
                }
            }
        }
    }
    if c.steps == 0 {
        assert(c.steps * config.time_step == 0) by (nonlinear_arith)
            requires
                c.steps == 0,
        ;
    }
}

/// In Tartarus mode the altitude never ends the fall: while nine days have
/// not passed, the fall goes on.
pub proof fn lemma_tartarus_ignores_altitude(config: SimulationConfig, state: SimulationState)
    requires
        config.tartarus_mode,
    ensures
        continues(config, state) <==> state.elapsed_time < TARTARUS_DURATION,
{
}

/// An object that is dropped at or below the surface does not fall: the
/// run is over before its first step, at rest, at time zero.
pub proof fn lemma_no_fall_from_the_surface(config: SimulationConfig, limit: nat)
    requires
        !config.tartarus_mode,
        config.initial_distance <= 0,
    ensures
        !continues(config, initial_state(config)),
        course(config, initial_state(config), limit) == (Course {
            state: initial_state(config),
            steps: 0,
            halt: Halt::Finished,
            reports: Seq::empty(),
        }),
{
    assert(0 * (config.time_step as int) == 0);
}

/// The object is above the surface, or the fall is over.
pub open spec fn aloft(config: SimulationConfig, state: SimulationState) -> bool {
    state.distance > 0 || !continues(config, state)
}

/// Outside Tartarus mode a step from above the surface leaves the object
/// above the surface or ends the fall.
pub proof fn lemma_step_keeps_aloft(
    config: SimulationConfig,
    state: SimulationState,
    density: int,
)
    requires
        !config.tartarus_mode,
        state.distance > 0,
        step_representable(config, state, density),
    ensures
        aloft(config, state_after(config, state, density)),
{
}

/// Outside Tartarus mode a run that starts above the surface, or with the
/// fall over, never comes below sea level.
pub proof fn lemma_fall_stays_above_sea_level(
    config: SimulationConfig,
    from: SimulationState,
    limit: nat,
)
    requires
        !config.tartarus_mode,
        aloft(config, from),
    ensures
        course(config, from, limit).halt != Halt::BelowSeaLevel,
        aloft(config, course(config, from, limit).state),
    decreases limit,
{
    if continues(config, from) && limit > 0 {
        if let AirDensity::Known(rho) = air_at(from.distance as int) {
            if step_representable(config, from, rho as int) {
                lemma_step_keeps_aloft(config, from, rho as int);
                lemma_fall_stays_above_sea_level(
                    config,
                    state_after(config, from, rho as int),
                    (limit - 1) as nat,
                );
            }
        }
    }
}

/// Outside Tartarus mode a run from the start of a fall never comes below
/// sea level.
pub proof fn lemma_fall_from_start_stays_above_sea_level(config: SimulationConfig, limit: nat)
    requires
        !config.tartarus_mode,
    ensures
        course(config, initial_state(config), limit).halt != Halt::BelowSeaLevel,
{
    assert(0 * (config.time_step as int) == 0);
    lemma_fall_stays_above_sea_level(config, initial_state(config), limit);
}

/// A fall is determined by its configuration, its first state and its step
/// limit: two runs of the same fall stop in the same state, after the same
/// number of steps, for the same reason, with the same reports.
pub proof fn lemma_runs_agree(
    config: SimulationConfig,
    from: SimulationState,
    limit: nat,
    first: Run,
    second: Run,
)
    requires
        first.follows(config, from, limit),
        second.follows(config, from, limit),
    ensures
        first.state == second.state,
        first.steps == second.steps,
        first.halt == second.halt,
        first.reports@ == second.reports@,
{
}

} // verus!
