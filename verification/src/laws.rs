//! Properties of the step function that hold for every state, configuration
//! and input.

use vstd::prelude::*;
use crate::config::SimConfig;
use crate::dynamics::{net_acceleration, propagate, run, step, throttle, Input, State, GRAVITY};
use crate::fixed::{
    fits, lemma_sat_mul_one, lemma_sat_mul_sign, sat_add, sat_mul, Fixed, HALF_SCALE, SCALE,
};

verus! {

/// After any step, from any state whatever, the body respects the ground: its
/// position is not negative, and where the position is zero the velocity is
/// not negative.
pub proof fn lemma_step_respects_ground(s: State, cfg: SimConfig, input: Input)
    ensures
        step(s, cfg, input).respects_ground(),
{
}

/// A body that respects the ground keeps doing so over any sequence of steps.
pub proof fn lemma_run_respects_ground(s: State, cfg: SimConfig, inputs: Seq<Input>)
    requires
        s.respects_ground(),
    ensures
        run(s, cfg, inputs).respects_ground(),
    decreases inputs.len(),
{
    if inputs.len() > 0 {
        lemma_step_respects_ground(run(s, cfg, inputs.drop_last()), cfg, inputs.last());
    }
}

/// One row of a 3×3 matrix applied to the state as a column vector: the sum,
/// left to right, of the products of the row's coefficients with position,
/// velocity and acceleration.
pub open spec fn row_times_state(c0: int, c1: int, c2: int, s: State) -> int {
    sat_add(
        sat_add(sat_mul(c0, s.position), sat_mul(c1, s.velocity)),
        sat_mul(c2, s.acceleration),
    )
}

/// Propagation is the product of the transition matrix of motion under
/// constant acceleration,
///
/// ```text
/// 1   dt   ½·dt²
/// 0   1    dt
/// 0   0    1
/// ```
///
/// with the state: the products with the coefficients zero and one that the
/// closed form leaves out change nothing.
pub proof fn lemma_propagate_is_matrix_product(s: State, dt: int)
    requires
        fits(s.position),
        fits(s.velocity),
        fits(s.acceleration),
    ensures
        propagate(s, dt) == (State {
            position: row_times_state(
                SCALE as int,
                dt,
                sat_mul(HALF_SCALE as int, sat_mul(dt, dt)),
                s,
            ),
            velocity: row_times_state(0, SCALE as int, dt, s),
            acceleration: row_times_state(0, 0, SCALE as int, s),
        }),
{
    lemma_sat_mul_one(s.position);
    lemma_sat_mul_one(s.velocity);
    lemma_sat_mul_one(s.acceleration);
    lemma_sat_mul_sign(0, s.position);
    lemma_sat_mul_sign(0, s.velocity);
}

/// The body is on the ground after a step exactly when unhindered motion
/// would have ended on or below the ground.
pub proof fn lemma_lands_when_motion_ends_below_ground(s: State, cfg: SimConfig, input: Input)
    ensures
        step(s, cfg, input).position == 0 <==> propagate(
            (State {
                position: s.position,
                velocity: s.velocity,
                acceleration: net_acceleration(cfg.max_thrust_force@, input),
            }),
            cfg.time_step@,
        ).position <= 0,
{
}

/// A body that stands still on the ground lifts off exactly when the
/// acceleration is large enough for ½ · dt² · acceleration to round to a
/// count or more.
pub proof fn lemma_lifts_off_when_pushed_enough(s: State, cfg: SimConfig, input: Input)
    requires
        s.position == 0,
        s.velocity == 0,
    ensures
        step(s, cfg, input).position > 0 <==> 2 * (sat_mul(
            HALF_SCALE as int,
            sat_mul(cfg.time_step@, cfg.time_step@),
        ) * net_acceleration(cfg.max_thrust_force@, input)) >= SCALE,
{
    lemma_sat_mul_sign(cfg.time_step@, 0);
}

/// A step sees the thrust command only through the throttle: two inputs with
/// the same disturbances and the same throttle lead to the same state.
pub proof fn lemma_step_depends_on_throttle(s: State, cfg: SimConfig, a: Input, b: Input)
    requires
        throttle(a.thrust) == throttle(b.thrust),
        a.thrust_error == b.thrust_error,
        a.random_force == b.random_force,
    ensures
        step(s, cfg, a) == step(s, cfg, b),
{
}

/// A thrust command of one or more acts as a command of exactly one.
pub proof fn lemma_excess_thrust_is_full_thrust(s: State, cfg: SimConfig, input: Input)
    requires
        input.thrust >= SCALE,
    ensures
        step(s, cfg, input) == step(
            s,
            cfg,
            (Input {
                thrust: SCALE as int,
                thrust_error: input.thrust_error,
                random_force: input.random_force,
            }),
        ),
{
}

/// A thrust command of zero or less acts as a command of exactly zero.
pub proof fn lemma_negative_thrust_is_no_thrust(s: State, cfg: SimConfig, input: Input)
    requires
        input.thrust <= 0,
    ensures
        step(s, cfg, input) == step(
            s,
            cfg,
            (Input { thrust: 0, thrust_error: input.thrust_error, random_force: input.random_force }),
        ),
{
}

/// Without throttle and without disturbances the acceleration is that of
/// gravity alone, whatever the full thrust force is.
pub proof fn lemma_idle_acceleration(max_thrust_force: int)
    ensures
        net_acceleration(max_thrust_force, Input::idle()) == -GRAVITY,
{
    lemma_sat_mul_sign(max_thrust_force, 0);
}

/// One idle step of a body that lies on the ground and does not move against
/// the direction of time: it stays on the ground under the acceleration of
/// gravity, and with a time step that is not negative it also stays still.
proof fn lemma_idle_step_stays_grounded(s: State, cfg: SimConfig)
    requires
        s.position == 0,
        s.velocity >= 0,
        cfg.time_step@ >= 0 ==> s.velocity == 0,
    ensures
        step(s, cfg, Input::idle()).position == 0,
        step(s, cfg, Input::idle()).velocity >= 0,
        step(s, cfg, Input::idle()).acceleration == -GRAVITY,
        cfg.time_step@ >= 0 ==> step(s, cfg, Input::idle()).velocity == 0,
{
    let dt = cfg.time_step@;
    let fall = -(GRAVITY as int);
    lemma_idle_acceleration(cfg.max_thrust_force@);
    lemma_sat_mul_sign(dt, dt);
    let dt_squared = sat_mul(dt, dt);
    lemma_sat_mul_sign(HALF_SCALE as int, dt_squared);
    let half_dt_squared = sat_mul(HALF_SCALE as int, dt_squared);
    lemma_sat_mul_sign(half_dt_squared, fall);
    lemma_sat_mul_sign(dt, s.velocity);
    lemma_sat_mul_sign(dt, fall);
}

/// Any number of idle steps keep such a body on the ground.
proof fn lemma_idle_run_stays_grounded(s: State, cfg: SimConfig, inputs: Seq<Input>)
    requires
        s.position == 0,
        s.velocity >= 0,
        cfg.time_step@ >= 0 ==> s.velocity == 0,
        forall|i: int| 0 <= i < inputs.len() ==> inputs[i] == Input::idle(),
    ensures
        run(s, cfg, inputs).position == 0,
        run(s, cfg, inputs).velocity >= 0,
        cfg.time_step@ >= 0 ==> run(s, cfg, inputs).velocity == 0,
        inputs.len() > 0 ==> run(s, cfg, inputs).acceleration == -GRAVITY,
    decreases inputs.len(),
{
    if inputs.len() > 0 {
        let before = inputs.drop_last();
        assert forall|i: int| 0 <= i < before.len() implies before[i] == Input::idle() by {
            assert(before[i] == inputs[i]);
        }
        lemma_idle_run_stays_grounded(s, cfg, before);
        assert(inputs.last() == Input::idle());
        lemma_idle_step_stays_grounded(run(s, cfg, before), cfg);
    }
}

/// Starting at rest on the ground, any positive number of steps without
/// throttle and without disturbances leaves the position at zero and the
/// acceleration at exactly minus 9.81; with a time step that is not negative
/// the velocity stays zero too.
pub proof fn lemma_idle_body_stays_on_ground(s: State, cfg: SimConfig, inputs: Seq<Input>)
    requires
        s.position == 0,
        s.velocity == 0,
        inputs.len() > 0,
        forall|i: int| 0 <= i < inputs.len() ==> inputs[i] == Input::idle(),
    ensures
        run(s, cfg, inputs).position == 0,
        run(s, cfg, inputs).acceleration == -GRAVITY,
        cfg.time_step@ >= 0 ==> run(s, cfg, inputs).velocity == 0,
{
    lemma_idle_run_stays_grounded(s, cfg, inputs);
}

/// The first step of the stock configuration at full throttle and without
/// disturbances: the acceleration is 40 − 9.81 = 30.19, the velocity
/// 30.19 · 0.01 = 0.3019, and the position ½ · 30.19 · 0.01² = 0.0015095.
pub proof fn lemma_first_step_at_full_thrust()
    ensures
        step(
            State::rest(),
            SimConfig::standard(),
            (Input { thrust: SCALE as int, thrust_error: 0, random_force: 0 }),
        ) == (State {
            position: 1_509_500,
            velocity: 301_900_000,
            acceleration: 30_190_000_000,
        }),
{
    assert(40_000_000_000int * 1_000_000_000int == 40_000_000_000_000_000_000int)
        by (nonlinear_arith);
    assert(10_000_000int * 10_000_000int == 100_000_000_000_000int) by (nonlinear_arith);
    assert(500_000_000int * 100_000int == 50_000_000_000_000int) by (nonlinear_arith);
    assert(50_000int * 30_190_000_000int == 1_509_500_000_000_000int) by (nonlinear_arith);
    assert(10_000_000int * 30_190_000_000int == 301_900_000_000_000_000int) by (nonlinear_arith);
    assert(10_000_000int * 0int == 0int) by (nonlinear_arith);
    assert(sat_mul(40_000_000_000, SCALE as int) == 40_000_000_000);
    assert(sat_mul(10_000_000, 10_000_000) == 100_000);
    assert(sat_mul(HALF_SCALE as int, 100_000) == 50_000);
    assert(sat_mul(50_000, 30_190_000_000) == 1_509_500);
    assert(sat_mul(10_000_000, 30_190_000_000) == 301_900_000);
    assert(sat_mul(10_000_000, 0) == 0);
}

/// A reading differs from the true value by exactly the sample of the sensor
/// error, as long as their sum can be held.
pub proof fn lemma_reading_error_is_sample(truth: Fixed, sample: Fixed)
    requires
        fits(truth@ + sample@),
    ensures
        sat_add(truth@, sample@) - truth@ == sample@,
{
}

/// The sum of the entries of `xs`.
pub open spec fn sum(xs: Seq<int>) -> int
    decreases xs.len(),
{
    if xs.len() == 0 {
        0
    } else {
        sum(xs.drop_last()) + xs.last()
    }
}

/// The readings that a sensor returns while the true value stays `truth`, one
/// for each sample of its error.
pub open spec fn readings(truth: int, samples: Seq<int>) -> Seq<int> {
    Seq::new(samples.len(), |i: int| sat_add(truth, samples[i]))
}

/// With the state held fixed, the readings sum to the true value times their
/// number plus the sum of the samples: their mean is the true value plus the
/// mean of the samples, as long as each reading can be held.
pub proof fn lemma_mean_reading_is_truth_plus_mean_sample(truth: int, samples: Seq<int>)
    requires
        forall|i: int| 0 <= i < samples.len() ==> fits(truth + #[trigger] samples[i]),
    ensures
        sum(readings(truth, samples)) == samples.len() * truth + sum(samples),
    decreases samples.len(),
{
    if samples.len() > 0 {
        let before = samples.drop_last();
        assert(readings(truth, samples).drop_last() =~= readings(truth, before));
        lemma_mean_reading_is_truth_plus_mean_sample(truth, before);
        assert(samples.len() * truth == before.len() * truth + truth) by (nonlinear_arith)
            requires
                samples.len() == before.len() + 1,
        ;
    }
}

/// At rest every reading of velocity or acceleration returns the sample of
/// the sensor error itself.
pub proof fn lemma_reading_at_rest(sample: Fixed)
    ensures
        sat_add(State::rest().velocity, sample@) == sample@,
        sat_add(State::rest().acceleration, sample@) == sample@,
{
}

} // verus!
