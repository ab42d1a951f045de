//! Discrete-time simulator of a thrust-controlled body on a vertical axis,
//! computed in saturating decimal fixed point.
//!
//! Each step takes a throttle command and the disturbances drawn for it,
//! recomputes the acceleration, propagates position and velocity under that
//! constant acceleration, and keeps the body on or above the ground. Readings
//! of velocity and acceleration carry a sensor error; the position is read
//! exactly. The simulator itself is deterministic: every random sample is an
//! argument.
//!
//! - [`fixed`]: the number type and its arithmetic.
//! - [`config`]: time step, thrust force and noise model, and their validation.
//! - [`dynamics`]: the mathematical model of a step.
//! - [`simulator`]: the simulator, [`Sim`].
//! - [`laws`]: what holds of every step and of every run of steps.
//! - [`accuracy`]: how close a step stays to the exact equations of motion.

pub mod accuracy;
pub mod config;
pub mod dynamics;
pub mod fixed;
pub mod laws;
pub mod simulator;

pub use crate::config::{ConfigError, Gaussian, NoiseModel, NoiseSource, SimConfig};
pub use crate::fixed::Fixed;
pub use crate::simulator::Sim;
