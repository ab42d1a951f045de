//! How far a fixed-point step is from the exact equations of motion.
//!
//! As long as nothing saturates, every sum is exact and every product is
//! rounded once, by at most half a count. The laws below add these errors up
//! for each of the three components of the state. They compare raw counts
//! after multiplying through by the scale, so that no fraction appears.

use vstd::prelude::*;
use crate::dynamics::{net_acceleration, propagate, throttle, Input, State, GRAVITY};
use crate::fixed::{fits, lemma_sat_mul_is_nearest, rescale, sat_mul, HALF_SCALE, SCALE};

verus! {

/// The absolute value of `x`.
pub open spec fn magnitude(x: int) -> int {
    if x < 0 {
        -x
    } else {
        x
    }
}

/// No sum and no product saturates when the acceleration is formed.
pub open spec fn accelerates_in_range(max_thrust_force: int, input: Input) -> bool {
    let thrust = rescale(max_thrust_force * throttle(input.thrust));
    &&& fits(thrust)
    &&& fits(thrust + input.random_force)
    &&& fits(thrust + input.random_force + input.thrust_error)
    &&& fits(thrust + input.random_force + input.thrust_error - GRAVITY)
}

/// No sum and no product saturates when `s` is propagated over `dt`.
pub open spec fn propagates_in_range(s: State, dt: int) -> bool {
    let dt_squared = rescale(dt * dt);
    let half_dt_squared = rescale(HALF_SCALE * dt_squared);
    &&& fits(rescale(dt * s.velocity))
    &&& fits(s.position + rescale(dt * s.velocity))
    &&& fits(dt_squared)
    &&& fits(half_dt_squared)
    &&& fits(rescale(half_dt_squared * s.acceleration))
    &&& fits(s.position + rescale(dt * s.velocity) + rescale(half_dt_squared * s.acceleration))
    &&& fits(rescale(dt * s.acceleration))
    &&& fits(s.velocity + rescale(dt * s.acceleration))
}

/// The acceleration is within half a count of
/// full thrust · throttle + random force + thrust error − gravity.
pub proof fn lemma_acceleration_is_accurate(max_thrust_force: int, input: Input)
    requires
        accelerates_in_range(max_thrust_force, input),
    ensures
        magnitude(
            (net_acceleration(max_thrust_force, input) - input.random_force - input.thrust_error
                + GRAVITY) * SCALE - max_thrust_force * throttle(input.thrust),
        ) <= HALF_SCALE,
{
    lemma_sat_mul_is_nearest(max_thrust_force, throttle(input.thrust));
}

/// The propagated velocity is within half a count of velocity + dt · acceleration.
pub proof fn lemma_velocity_is_accurate(s: State, dt: int)
    requires
        propagates_in_range(s, dt),
    ensures
        magnitude((propagate(s, dt).velocity - s.velocity) * SCALE - dt * s.acceleration)
            <= HALF_SCALE,
{
    lemma_sat_mul_is_nearest(dt, s.acceleration);
}

/// The propagated position is within 1 + ¾·|acceleration| counts, the
/// acceleration taken in units, of
/// position + dt · velocity + ½ · dt² · acceleration.
///
/// Written without fractions: four times the scale squared times the gain in
/// position differs from 4 · scale · dt · velocity + 2 · dt² · acceleration by
/// at most 4 · scale² + 3 · scale · |acceleration|.
pub proof fn lemma_position_is_accurate(s: State, dt: int)
    requires
        propagates_in_range(s, dt),
    ensures
        magnitude(
            4 * SCALE * SCALE * (propagate(s, dt).position - s.position) - (4 * SCALE * (dt
                * s.velocity) + 2 * ((dt * dt) * s.acceleration)),
        ) <= 4 * SCALE * SCALE + 3 * SCALE * magnitude(s.acceleration),
{
    let a = s.acceleration;
    let dt_squared = sat_mul(dt, dt);
    let half_dt_squared = sat_mul(HALF_SCALE as int, dt_squared);
    let by_velocity = sat_mul(dt, s.velocity);
    let by_acceleration = sat_mul(half_dt_squared, a);
    lemma_sat_mul_is_nearest(dt, s.velocity);
    lemma_sat_mul_is_nearest(dt, dt);
    lemma_sat_mul_is_nearest(HALF_SCALE as int, dt_squared);
    lemma_sat_mul_is_nearest(half_dt_squared, a);
    // The four rounding errors, each scaled so that it is an integer.
    let e1 = by_velocity * SCALE - dt * s.velocity;
    let e2 = dt_squared * SCALE - dt * dt;
    let e3 = 2 * half_dt_squared - dt_squared;
    let e4 = by_acceleration * SCALE - half_dt_squared * a;
    assert(-HALF_SCALE <= e1 <= HALF_SCALE);
    assert(-HALF_SCALE <= e2 <= HALF_SCALE);
    assert(-1 <= e3 <= 1);
    assert(-HALF_SCALE <= e4 <= HALF_SCALE);
    assert(propagate(s, dt).position - s.position == by_velocity + by_acceleration);
    // dt² · a, written over the rounded factors and their errors.
    assert((dt * dt) * a == 1_000_000_000 * (dt_squared * a) - e2 * a) by (nonlinear_arith)
        requires
            dt * dt == 1_000_000_000 * dt_squared - e2,
    ;
    assert(dt_squared * a == 2 * (half_dt_squared * a) - e3 * a) by (nonlinear_arith)
        requires
            dt_squared == 2 * half_dt_squared - e3,
    ;
    assert(-magnitude(a) <= e3 * a <= magnitude(a)) by (nonlinear_arith)
        requires
            -1 <= e3 <= 1,
    ;
    assert(-500_000_000 * magnitude(a) <= e2 * a <= 500_000_000 * magnitude(a))
        by (nonlinear_arith)
        requires
            -500_000_000 <= e2 <= 500_000_000,
    ;
    // The constant factors of the claim, folded: what is left is linear.
    assert(4 * SCALE * SCALE == 4_000_000_000_000_000_000int);
    assert(3 * SCALE * magnitude(a) == 3_000_000_000 * magnitude(a));
}

} // verus!
