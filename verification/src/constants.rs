//! Physical constants and the fixed-point scales used throughout the engine.

use vstd::prelude::*;

verus! {

/// Speed of light in vacuum, in m/s.
pub const LIGHT_SPEED: u64 = 299_792_458;

/// One whole, for quantities carried in parts per million: mixture weights,
/// probabilities, and the fractional part of an expected decay count.
pub const PPM: u64 = 1_000_000;

/// Scale used for the relativistic Lorentz factor: the factor `k` is carried
/// as `k * K_SCALE` rounded down.
pub const K_SCALE: u128 = 4_294_967_296;

/// Electron rest energy in meV (from the electron mass and the square of the
/// speed of light, divided by the charge conversion).
pub const ELECTRON_REST_ENERGY: u64 = 511_055_309;

/// Alpha-particle rest energy in meV; also stands in for protons and
/// neutrons.
pub const ALPHA_REST_ENERGY: u64 = 3_727_790_193_308;

/// `ln(2) * Avogadro's number * 10^12`: the numerator of the specific-activity
/// formula, pre-scaled so that a half-life in milliseconds and an atomic mass
/// in micro-u give an activity in Bq/kg after one division.
pub const ACTIVITY_NUMERATOR: u128 = 417_423_000_000_000_000_000_000_000_000_000_000;

/// A particle whose energy falls below this threshold (in meV, i.e. 0.1 eV)
/// is removed from the simulation.
pub const TERMINATION_ENERGY: u64 = 100;

/// A charged particle whose speed falls below this threshold (in m/s) is
/// removed from the simulation.
pub const TERMINATION_SPEED: u64 = 10;

/// Equivalent-dose weighting factor applied to energy deposited by alpha
/// particles; all other species are weighted by one.
pub const ALPHA_DOSE_WEIGHT: u64 = 20;

/// A decay is usable as a radiation source only if its energy exceeds this
/// negligibility threshold (in meV, i.e. 0.1 eV).
pub const USABLE_DECAY_ENERGY: u64 = 100;

/// Largest accepted volume extent along one axis, in nm (100 m): keeps the
/// volume and mass arithmetic of the decay sampler inside 128 bits.
pub const MAX_EXTENT: u64 = 100_000_000_000;

/// Largest accepted substance density, in mg/m^3 (10^7 kg/m^3): same
/// purpose.
pub const MAX_DENSITY: u64 = 10_000_000_000_000;

} // verus!
