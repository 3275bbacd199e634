//! Model-based estimation of a single-board computer's electrical power draw
//! from CPU, memory and temperature telemetry, and conversion of sampled power
//! over an observation window into environmental-impact metrics.
//!
//! All quantities are fixed-point integers with explicit units: power in
//! milliwatts, percentages in thousandths of a percent, temperatures in
//! millidegrees Celsius, energy in milliwatt-hours. The conversion factors of
//! a [`power::PowerModel`] carry their scale in their field names.

pub mod accountant;
pub mod errors;
pub mod estimator;
pub mod power;
pub mod session;
pub mod stream;
pub mod sums;
pub mod telemetry;
