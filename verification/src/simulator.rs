//! The simulator: the state of the body together with its configuration.

use vstd::prelude::*;
use crate::config::{ConfigError, SimConfig};
use crate::dynamics::{step, Input, State, GRAVITY};
use crate::fixed::{sat_add, Fixed};

verus! {

/// A body on a vertical axis above the ground, driven by a throttle command.
///
/// The simulator draws no random numbers: the caller draws the disturbance of
/// each step and the error of each reading from the distributions that
/// [`Sim::config`] describes, and passes the samples in.
#[derive(Debug, PartialEq, Eq)]
pub struct Sim {
    position: Fixed,
    velocity: Fixed,
    acceleration: Fixed,
    config: SimConfig,
}

impl View for Sim {
    type V = State;

    closed spec fn view(&self) -> State {
        State {
            position: self.position@,
            velocity: self.velocity@,
            acceleration: self.acceleration@,
        }
    }
}

impl Sim {
    /// Holds of every simulator at all times: the body respects the ground,
    /// and the noise model is usable.
    #[verifier::type_invariant]
    closed spec fn inv(self) -> bool {
        &&& self@.respects_ground()
        &&& self.config.noise.valid()
    }

    /// The configuration that the simulator was built with.
    pub closed spec fn params(&self) -> SimConfig {
        self.config
    }

    /// Builds a simulator with the body at rest on the ground.
    ///
    /// Fails exactly when the standard deviation of a disturbance is negative;
    /// the error names the first such disturbance.
    pub fn new(config: SimConfig) -> (r: Result<Sim, ConfigError>)
        ensures
            r is Ok <==> config.noise.valid(),
            r matches Ok(sim) ==> sim@ == State::rest() && sim.params() == config,
            r matches Err(e) ==> config.noise.first_invalid() == Some(e->source),
    {
        match config.noise.validate() {
            Ok(()) => Ok(
                Sim {
                    position: Fixed::zero(),
                    velocity: Fixed::zero(),
                    acceleration: Fixed::zero(),
                    config,
                },
            ),
            Err(e) => Err(e),
        }
    }

    /// Advances the simulation by one time step.
    ///
    /// `thrust_percent` is the commanded throttle, limited to the interval from
    /// zero to one before use. `thrust_err` and `rand_force` are this step's
    /// samples of the actuator error and of the outside force.
    pub fn tick(&mut self, thrust_percent: Fixed, thrust_err: Fixed, rand_force: Fixed)
        ensures
            final(self)@ == step(
                old(self)@,
                old(self).params(),
                (Input {
                    thrust: thrust_percent@,
                    thrust_error: thrust_err@,
                    random_force: rand_force@,
                }),
            ),
            final(self).params() == old(self).params(),
            final(self)@.position >= 0,
            final(self)@.position == 0 ==> final(self)@.velocity >= 0,
    {
        let zero = Fixed::zero();
        let throttle = thrust_percent.clamp(zero, Fixed::one());
        let thrust = self.config.max_thrust_force.saturating_mul(throttle);
        let acceleration = thrust.saturating_add(rand_force).saturating_add(
            thrust_err,
        ).saturating_sub(Fixed { raw: GRAVITY });

        let dt = self.config.time_step;
        let half_dt_squared = Fixed::half().saturating_mul(dt.saturating_mul(dt));
        let by_velocity = dt.saturating_mul(self.velocity);
        let by_acceleration = half_dt_squared.saturating_mul(acceleration);
        let free_position = self.position.saturating_add(by_velocity).saturating_add(
            by_acceleration,
        );
        let free_velocity = self.velocity.saturating_add(dt.saturating_mul(acceleration));

        let position = free_position.max(zero);
        let velocity = if position.raw == 0 {
            free_velocity.max(zero)
        } else {
            free_velocity
        };
        proof {
            use_type_invariant(&*self);
        }
        *self = Sim { position, velocity, acceleration, config: self.config };
    }

    /// The position of the body, read without error.
    ///
    /// It is never negative, and while it is zero the true velocity is not
    /// negative either.
    pub fn pos(&self) -> (r: Fixed)
        ensures
            r@ == self@.position,
            r@ >= 0,
            r@ == 0 ==> self@.velocity >= 0,
    {
        proof {
            use_type_invariant(self);
        }
        self.position
    }

    /// A velocity reading: the true velocity plus `sensor_err`, this
    /// reading's sample of the sensor error.
    pub fn velocity(&self, sensor_err: Fixed) -> (r: Fixed)
        ensures
            r@ == sat_add(self@.velocity, sensor_err@),
    {
        self.velocity.saturating_add(sensor_err)
    }

    /// An acceleration reading: the true acceleration plus `sensor_err`, this
    /// reading's sample of the sensor error.
    pub fn accl(&self, sensor_err: Fixed) -> (r: Fixed)
        ensures
            r@ == sat_add(self@.acceleration, sensor_err@),
    {
        self.acceleration.saturating_add(sensor_err)
    }

    /// The configuration that the simulator was built with; its noise model
    /// is usable.
    pub fn config(&self) -> (r: SimConfig)
        ensures
            r == self.params(),
            r.noise.valid(),
    {
        proof {
            use_type_invariant(self);
        }
        self.config
    }
}

impl Clone for Sim {
    /// An independent simulator in the same state and with the same configuration.
    fn clone(&self) -> (r: Sim)
        ensures
            r@ == self@,
            r.params() == self.params(),
    {
        proof {
            use_type_invariant(self);
        }
        Sim {
            position: self.position,
            velocity: self.velocity,
            acceleration: self.acceleration,
            config: self.config,
        }
    }
}

impl Default for Sim {
    /// A simulator at rest with the stock configuration.
    fn default() -> (r: Sim)
        ensures
            r@ == State::rest(),
            r.params() == SimConfig::standard(),
    {
        Sim {
            position: Fixed::zero(),
            velocity: Fixed::zero(),
            acceleration: Fixed::zero(),
            config: SimConfig::default(),
        }
    }
}

} // verus!
