//! A particle-transport and dosimetry engine for ionizing radiation.
//!
//! The engine samples radioactive decays, converts between kinetic energy and
//! relativistic speed, looks up stopping-power curves, steps particles through
//! a scene of axis-aligned volumes, and accumulates the dose they deposit.
//!
//! All physical quantities are carried as fixed-point integers so that every
//! computation can be specified and verified exactly:
//! energies in milli-electronvolt (meV), speeds in metres per second,
//! positions and extents in nanometres, times in femtoseconds, densities in
//! milligrams per cubic metre, and dimensionless fractions (weights,
//! probabilities) in parts per million.

pub mod constants;
pub mod data_reading;
pub mod kinematics;
pub mod material;
pub mod materials;
pub mod math;
pub mod particle;
pub mod rng;
pub mod sampler;
pub mod stopping;
pub mod transport;
