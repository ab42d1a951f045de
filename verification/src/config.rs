//! Construction-time parameters of the simulator and their validation.
//!
//! The simulator never draws random numbers itself. The noise model only
//! records the mean and standard deviation of each disturbance, so that the
//! caller who owns the random generator can draw from the right distributions
//! and hand the samples in.

use vstd::prelude::*;
use crate::fixed::Fixed;

verus! {

/// Mean and standard deviation of a normal distribution.
#[derive(Clone, Copy, Debug, PartialEq, Eq, Structural)]
pub struct Gaussian {
    pub mean: Fixed,
    pub std_dev: Fixed,
}

/// The three disturbances that act on the simulated body.
#[derive(Clone, Copy, Debug, PartialEq, Eq, Structural)]
pub enum NoiseSource {
    /// Error of the actuator, added to the commanded thrust force.
    ThrustError,
    /// Error of the instruments, added to every velocity and acceleration reading.
    SensorError,
    /// An outside force, such as a gust, added to the acceleration of each step.
    RandomForce,
}

/// The distributions of the three disturbances, fixed at construction.
#[derive(Clone, Copy, Debug, PartialEq, Eq, Structural)]
pub struct NoiseModel {
    pub thrust_error: Gaussian,
    pub sensor_error: Gaussian,
    pub random_force: Gaussian,
}

/// Why a configuration was turned down.
#[derive(Clone, Copy, Debug, PartialEq, Eq, Structural)]
pub enum ConfigError {
    /// The standard deviation of the named disturbance is negative.
    NegativeStdDev { source: NoiseSource },
}

/// Everything that is chosen when a simulator is built and never changes afterwards.
#[derive(Clone, Copy, Debug, PartialEq, Eq, Structural)]
pub struct SimConfig {
    /// Simulated time that passes in one step.
    pub time_step: Fixed,
    /// Thrust force at full throttle.
    pub max_thrust_force: Fixed,
    pub noise: NoiseModel,
}

impl Gaussian {
    /// A distribution is usable when its standard deviation is not negative.
    pub open spec fn valid(&self) -> bool {
        self.std_dev@ >= 0
    }
}

impl NoiseModel {
    /// The first disturbance, in the order thrust error, sensor error, random
    /// force, whose distribution is unusable; `None` when all three are usable.
    pub open spec fn first_invalid(&self) -> Option<NoiseSource> {
        if !self.thrust_error.valid() {
            Some(NoiseSource::ThrustError)
        } else if !self.sensor_error.valid() {
            Some(NoiseSource::SensorError)
        } else if !self.random_force.valid() {
            Some(NoiseSource::RandomForce)
        } else {
            None
        }
    }

    /// All three distributions are usable.
    pub open spec fn valid(&self) -> bool {
        &&& self.thrust_error.valid()
        &&& self.sensor_error.valid()
        &&& self.random_force.valid()
    }

    /// The stock model: thrust error N(0, 2²), sensor error N(0.1, 0.5²),
    /// random force N(0, 5.75²).
    pub open spec fn standard() -> NoiseModel {
        NoiseModel {
            thrust_error: Gaussian { mean: Fixed { raw: 0 }, std_dev: Fixed { raw: 2_000_000_000 } },
            sensor_error: Gaussian {
                mean: Fixed { raw: 100_000_000 },
                std_dev: Fixed { raw: 500_000_000 },
            },
            random_force: Gaussian { mean: Fixed { raw: 0 }, std_dev: Fixed { raw: 5_750_000_000 } },
        }
    }

    /// Accepts the model when every standard deviation is non-negative, and
    /// otherwise names the first disturbance whose standard deviation is not.
    pub fn validate(&self) -> (r: Result<(), ConfigError>)
        ensures
            r is Ok <==> self.valid(),
            r is Ok <==> self.first_invalid() is None,
            r matches Err(e) ==> self.first_invalid() == Some(e->source),
    {
        if self.thrust_error.std_dev.raw < 0 {
            Err(ConfigError::NegativeStdDev { source: NoiseSource::ThrustError })
        } else if self.sensor_error.std_dev.raw < 0 {
            Err(ConfigError::NegativeStdDev { source: NoiseSource::SensorError })
        } else if self.random_force.std_dev.raw < 0 {
            Err(ConfigError::NegativeStdDev { source: NoiseSource::RandomForce })
        } else {
            Ok(())
        }
    }
}

impl Default for NoiseModel {
    fn default() -> (r: NoiseModel)
        ensures
            r == NoiseModel::standard(),
    {
        NoiseModel {
            thrust_error: Gaussian { mean: Fixed { raw: 0 }, std_dev: Fixed { raw: 2_000_000_000 } },
            sensor_error: Gaussian {
                mean: Fixed { raw: 100_000_000 },
                std_dev: Fixed { raw: 500_000_000 },
            },
            random_force: Gaussian { mean: Fixed { raw: 0 }, std_dev: Fixed { raw: 5_750_000_000 } },
        }
    }
}

impl SimConfig {
    /// The stock configuration: a time step of 0.01, a full-throttle thrust
    /// force of 40, and the stock noise model.
    pub open spec fn standard() -> SimConfig {
        SimConfig {
            time_step: Fixed { raw: 10_000_000 },
            max_thrust_force: Fixed { raw: 40_000_000_000 },
            noise: NoiseModel::standard(),
        }
    }
}

impl Default for SimConfig {
    fn default() -> (r: SimConfig)
        ensures
            r == SimConfig::standard(),
    {
        SimConfig {
            time_step: Fixed { raw: 10_000_000 },
            max_thrust_force: Fixed { raw: 40_000_000_000 },
            noise: NoiseModel::default(),
        }
    }
}

} // verus!
