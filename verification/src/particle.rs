//! Particles, their species, integer 3-vectors, and the simulation clock.

use vstd::prelude::*;

use crate::constants::{LIGHT_SPEED, MAX_EXTENT, TERMINATION_ENERGY, TERMINATION_SPEED};
use crate::data_reading::SubstanceData;
use crate::material::MaterialData;

verus! {

/// The tracked particle species.
#[derive(Debug, Clone, Copy, PartialEq, Eq, Structural, Hash)]
pub enum ParticleType {
    Alpha,
    Electron,
    Proton,
    Neutron,
    Gamma,
}

/// A 3-vector with integer components; positions are in nm, velocities in
/// m/s.
#[derive(Debug, Clone, Copy, PartialEq, Eq, Structural)]
pub struct Vec3 {
    pub x: i64,
    pub y: i64,
    pub z: i64,
}

/// A particle's species and kinetic energy in meV.  The energy field is
/// authoritative for photons only; a charged particle's energy is derived
/// from its speed.
#[derive(Debug, Clone, Copy, PartialEq, Eq, Structural)]
pub struct Particle {
    pub particle_type: ParticleType,
    pub energy: u64,
}

/// A live particle of the transport stepper: the particle itself, its
/// position in nm, its velocity direction (components in m/s), and its speed
/// in m/s.  The scalar speed is authoritative; the velocity vector carries
/// the direction of motion and approximates the speed in magnitude.
#[derive(Debug, Clone, Copy, PartialEq, Eq, Structural)]
pub struct TrackedParticle {
    pub particle: Particle,
    pub position: Vec3,
    pub velocity: Vec3,
    pub speed: u64,
}

impl TrackedParticle {
    /// Every live particle satisfies the speed invariant and sits above the
    /// termination thresholds.
    pub open spec fn wf(self) -> bool {
        &&& self.speed_wf()
        &&& !self.spec_terminated()
    }

    /// The speed invariant of a live particle: photons move at light speed
    /// exactly, everything else strictly below it, and no velocity
    /// component exceeds the scalar speed in magnitude.
    pub open spec fn speed_wf(self) -> bool {
        &&& if self.particle.particle_type is Gamma {
            self.speed == LIGHT_SPEED
        } else {
            self.speed < LIGHT_SPEED
        }
        &&& -(self.speed as int) <= self.velocity.x as int <= self.speed as int
        &&& -(self.speed as int) <= self.velocity.y as int <= self.speed as int
        &&& -(self.speed as int) <= self.velocity.z as int <= self.speed as int
    }

    /// A particle is terminated once its energy falls below 0.1 eV or its
    /// speed falls below the termination speed.
    pub open spec fn spec_terminated(self) -> bool {
        self.particle.energy < TERMINATION_ENERGY || self.speed < TERMINATION_SPEED
    }

    /// The termination test of the transport stepper.
    pub fn terminated(&self) -> (r: bool)
        ensures
            r == self.spec_terminated(),
    {
        self.particle.energy < TERMINATION_ENERGY || self.speed < TERMINATION_SPEED
    }
}

/// Axis-aligned extents of a volume, in nm.
#[derive(Debug, Clone, Copy, PartialEq, Eq, Structural)]
pub struct Extent3 {
    pub x: u64,
    pub y: u64,
    pub z: u64,
}

impl Extent3 {
    /// Extents stay inside the accepted bound, so that volumes and masses
    /// fit the sampler's arithmetic.
    pub open spec fn wf(self) -> bool {
        self.x <= MAX_EXTENT && self.y <= MAX_EXTENT && self.z <= MAX_EXTENT
    }

    /// Builds bounded extents.
    pub fn new(x: u64, y: u64, z: u64) -> (e: Extent3)
        requires
            x <= MAX_EXTENT,
            y <= MAX_EXTENT,
            z <= MAX_EXTENT,
        ensures
            e.x == x && e.y == y && e.z == z,
            e.wf(),
    {
        Extent3 { x, y, z }
    }
}

/// A spatial volume of the scene: its centre position in nm, its axis
/// aligned extents, its material mixture, and its accumulated absorbed dose
/// (equivalent-dose-weighted energy, in meV).
#[derive(Debug, Clone)]
pub struct Object {
    pub position: Vec3,
    pub extents: Extent3,
    pub material: MaterialData,
    pub absorbed_energy: u128,
}

impl Object {
    /// A volume is well-formed for a catalog when its extents are bounded
    /// and its mixture is well-formed.
    pub open spec fn wf(self, data: SubstanceData) -> bool {
        &&& self.extents.wf()
        &&& self.material.wf(data)
    }
}

/// The material mixture that fills space outside every volume.
#[derive(Debug, Clone)]
pub struct AmbientMaterial {
    pub material: MaterialData,
}

/// A directed test source that emits particles at fixed rates (each in
/// decays per second) with a fixed energy (in meV) along the x axis.
#[derive(Debug, Clone, Copy, PartialEq, Eq, Structural)]
pub struct LinearSpawner {
    pub alpha_rate: u64,
    pub beta_rate: u64,
    pub gamma_rate: u64,
    pub particle_energy: u64,
}

/// Upper bound on the configurable time steps, in fs (one microsecond).
pub const MAX_TIME_STEP: u64 = 1_000_000_000;

/// Upper bound on the configurable sub-step count per tick.
pub const MAX_MULTI_STEP: usize = 1_000_000;

/// The simulation clock: the physical interval behind one decay-sampling
/// tick, the interval behind one movement sub-step (both in fs), the number
/// of sub-steps per tick, the halt flag, and the elapsed simulated time in
/// fs.
#[derive(Debug, Clone, Copy, PartialEq, Eq, Structural)]
pub struct TimeData {
    pub time_step_calc: u64,
    pub time_step_move: u64,
    pub multi_step: usize,
    pub halted: bool,
    pub time_passed: u64,
}

impl TimeData {
    /// The time steps stay below fixed machine bounds so that displacements
    /// and elapsed time cannot overflow.
    pub open spec fn wf(self) -> bool {
        &&& self.time_step_calc <= MAX_TIME_STEP
        &&& self.time_step_move <= MAX_TIME_STEP
        &&& self.multi_step <= MAX_MULTI_STEP
    }

    /// The default clock: 10 ps per calculation tick, 1 ps per movement
    /// sub-step, sixteen sub-steps, running, no time passed.
    pub fn start() -> (t: TimeData)
        ensures
            t.wf(),
            t.time_step_calc == 10_000,
            t.time_step_move == 1_000,
            t.multi_step == 16,
            !t.halted,
            t.time_passed == 0,
    {
        TimeData {
            time_step_calc: 10_000,
            time_step_move: 1_000,
            multi_step: 16,
            halted: false,
            time_passed: 0,
        }
    }
}

/// Advances the elapsed-time account by one tick, unless the simulation is
/// halted; saturates at the largest representable time.
pub fn tick_time(time_data: &mut TimeData)
    ensures
        final(time_data).time_step_calc == old(time_data).time_step_calc,
        final(time_data).time_step_move == old(time_data).time_step_move,
        final(time_data).multi_step == old(time_data).multi_step,
        final(time_data).halted == old(time_data).halted,
        old(time_data).halted ==> final(time_data).time_passed == old(time_data).time_passed,
        !old(time_data).halted ==> final(time_data).time_passed == spec_saturating_add_u64(
            old(time_data).time_passed as int,
            old(time_data).time_step_calc * old(time_data).multi_step,
        ),
{
    if time_data.halted {
        return ;
    }
    assert((time_data.time_step_calc as nat) * (time_data.multi_step as nat) + u64::MAX
        <= u128::MAX) by (nonlinear_arith)
        requires
            time_data.time_step_calc <= u64::MAX,
            time_data.multi_step <= u64::MAX,
    ;
    let step = time_data.time_step_calc as u128 * time_data.multi_step as u128;
    let total = time_data.time_passed as u128 + step;
    if total > u64::MAX as u128 {
        time_data.time_passed = u64::MAX;
    } else {
        time_data.time_passed = total as u64;
    }
}

/// Addition saturating at the largest `u64`.
pub open spec fn spec_saturating_add_u64(a: int, b: int) -> int {
    if a + b > u64::MAX {
        u64::MAX as int
    } else {
        a + b
    }
}

} // verus!
