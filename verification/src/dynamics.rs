//! The mathematical model of one simulation step.
//!
//! Quantities are raw fixed-point counts (see [`crate::fixed`]) held as
//! mathematical integers. A step overwrites the acceleration from the current
//! command and disturbances, propagates position and velocity under that
//! constant acceleration, and then applies the ground constraint.

use vstd::prelude::*;
use vstd::math::max;
use crate::config::SimConfig;
use crate::fixed::{limit, sat_add, sat_mul, sat_sub, HALF_SCALE, SCALE};

verus! {

/// Gravitational acceleration, 9.81, as a raw count.
pub const GRAVITY: i64 = 9_810_000_000;

/// Position, velocity and acceleration of the body along its axis.
pub struct State {
    pub position: int,
    pub velocity: int,
    pub acceleration: int,
}

/// What one step consumes: the thrust command and the two disturbances drawn for it.
pub struct Input {
    /// Commanded throttle; values outside of zero to one are limited to that interval.
    pub thrust: int,
    /// Sample of the actuator error.
    pub thrust_error: int,
    /// Sample of the outside force.
    pub random_force: int,
}

impl State {
    /// The body lying still on the ground.
    pub open spec fn rest() -> State {
        State { position: 0, velocity: 0, acceleration: 0 }
    }

    /// The ground constraint: the body is never below the ground, and while it
    /// touches the ground it does not move downwards.
    pub open spec fn respects_ground(self) -> bool {
        &&& self.position >= 0
        &&& self.position == 0 ==> self.velocity >= 0
    }
}

impl Input {
    /// No throttle and no disturbance.
    pub open spec fn idle() -> Input {
        Input { thrust: 0, thrust_error: 0, random_force: 0 }
    }
}

/// The throttle that a thrust command results in: the command limited to the
/// interval from zero to one.
pub open spec fn throttle(thrust: int) -> int {
    limit(thrust, 0, SCALE as int)
}

/// Acceleration of the body during a step: full thrust times throttle, plus
/// the outside force, plus the actuator error, minus gravity.
pub open spec fn net_acceleration(max_thrust_force: int, input: Input) -> int {
    sat_sub(
        sat_add(
            sat_add(sat_mul(max_thrust_force, throttle(input.thrust)), input.random_force),
            input.thrust_error,
        ),
        GRAVITY as int,
    )
}

/// Motion under constant acceleration over a time `dt`:
/// position + dt·velocity + ½·dt²·acceleration, and velocity + dt·acceleration.
///
/// The coefficient ½·dt² is formed first and rounded by itself, before it
/// meets the acceleration.
pub open spec fn propagate(s: State, dt: int) -> State {
    State {
        position: sat_add(
            sat_add(s.position, sat_mul(dt, s.velocity)),
            sat_mul(sat_mul(HALF_SCALE as int, sat_mul(dt, dt)), s.acceleration),
        ),
        velocity: sat_add(s.velocity, sat_mul(dt, s.acceleration)),
        acceleration: s.acceleration,
    }
}

/// Ground contact: a position below the ground is lifted to it, and a body
/// that is then on the ground loses any downward velocity.
pub open spec fn settle(s: State) -> State {
    let position = max(s.position, 0);
    State {
        position,
        velocity: if position == 0 {
            max(s.velocity, 0)
        } else {
            s.velocity
        },
        acceleration: s.acceleration,
    }
}

/// One simulation step from state `s`.
pub open spec fn step(s: State, cfg: SimConfig, input: Input) -> State {
    let driven = State {
        position: s.position,
        velocity: s.velocity,
        acceleration: net_acceleration(cfg.max_thrust_force@, input),
    };
    settle(propagate(driven, cfg.time_step@))
}

/// The state reached from `s` by one step for each input, first to last.
pub open spec fn run(s: State, cfg: SimConfig, inputs: Seq<Input>) -> State
    decreases inputs.len(),
{
    if inputs.len() == 0 {
        s
    } else {
        step(run(s, cfg, inputs.drop_last()), cfg, inputs.last())
    }
}

} // verus!
