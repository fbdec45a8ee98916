//! Relativistic conversion between kinetic energy and speed.
//!
//! The Lorentz factor `k = energy / rest_energy + 1` is carried in fixed
//! point at `K_SCALE`; the speed is `c * sqrt(k^2 - 1) / k` and the inverse
//! recovers the energy from `k = c / sqrt(c^2 - v^2)`.  All divisions and
//! square roots round down.

use vstd::prelude::*;

use crate::constants::{ALPHA_REST_ENERGY, ELECTRON_REST_ENERGY, K_SCALE, LIGHT_SPEED};
use crate::math::{isqrt, lemma_isqrt_unique, spec_isqrt};
use crate::particle::ParticleType;

verus! {

/// Largest kinetic energy the converters accept, in meV (100 TeV): keeps the
/// fixed-point Lorentz factor inside 128 bits.
pub const MAX_PARTICLE_ENERGY: u64 = 100_000_000_000_000_000;

/// The rest energy that stands for a species, in meV: the electron rest
/// energy for electrons, the alpha-particle rest energy otherwise.
pub open spec fn spec_rest_energy(particle_type: ParticleType) -> nat {
    if particle_type is Electron {
        ELECTRON_REST_ENERGY as nat
    } else {
        ALPHA_REST_ENERGY as nat
    }
}

/// Looks the species' rest energy up.
pub fn rest_energy(particle_type: ParticleType) -> (r: u64)
    ensures
        r == spec_rest_energy(particle_type),
        r >= ELECTRON_REST_ENERGY,
{
    match particle_type {
        ParticleType::Electron => ELECTRON_REST_ENERGY,
        _ => ALPHA_REST_ENERGY,
    }
}

/// The fixed-point Lorentz factor of a particle with kinetic energy
/// `energy` and rest energy `rest`, scaled by `K_SCALE`.
pub open spec fn spec_k_factor(energy: nat, rest: nat) -> nat
    recommends
        rest > 0,
{
    (K_SCALE as nat) + energy * (K_SCALE as nat) / rest
}

/// Speed of a particle with the given kinetic energy and rest energy:
/// `c * sqrt(k^2 - 1) / k` in fixed point, rounded down.
pub open spec fn spec_energy_to_velocity(energy: nat, rest: nat) -> nat
    recommends
        rest > 0,
{
    let k = spec_k_factor(energy, rest);
    (LIGHT_SPEED as nat) * spec_isqrt((k * k - (K_SCALE as nat) * (K_SCALE as nat)) as nat) / k
}

/// Kinetic energy of a particle moving at speed `v`:
/// `(k - 1) * rest` with `k = c / sqrt(c^2 - v^2)` in fixed point.
pub open spec fn spec_velocity_to_energy(v: nat, rest: nat) -> nat
    recommends
        v < LIGHT_SPEED,
{
    let d = spec_isqrt(((LIGHT_SPEED as nat) * (LIGHT_SPEED as nat) - v * v) as nat);
    let k = (LIGHT_SPEED as nat) * (K_SCALE as nat) / d;
    (k - (K_SCALE as nat)) as nat * rest / (K_SCALE as nat)
}

/// Converts a kinetic energy (meV) to a relativistic speed (m/s) for the
/// given species.  The result is always strictly below the speed of light.
pub fn energy_to_velocity(energy: u64, particle_type: ParticleType) -> (v: u64)
    requires
        energy <= MAX_PARTICLE_ENERGY,
    ensures
        v == spec_energy_to_velocity(energy as nat, spec_rest_energy(particle_type)),
        v < LIGHT_SPEED,
        energy == 0 ==> v == 0,
{
    let rest = rest_energy(particle_type);
    let k: u128 = K_SCALE + (energy as u128) * K_SCALE / (rest as u128);
    assert((energy as nat) * (K_SCALE as nat) / (rest as nat) <= (MAX_PARTICLE_ENERGY as nat)
        * (K_SCALE as nat) / (ELECTRON_REST_ENERGY as nat)) by (nonlinear_arith)
        requires
            energy <= MAX_PARTICLE_ENERGY,
            rest >= ELECTRON_REST_ENERGY,
            ELECTRON_REST_ENERGY > 0,
    ;
    assert(k <= 0x8000_0000_0000_0000u128) by (nonlinear_arith)
        requires
            k == K_SCALE + (energy as nat) * (K_SCALE as nat) / (rest as nat),
            (energy as nat) * (K_SCALE as nat) / (rest as nat) <= (MAX_PARTICLE_ENERGY as nat)
                * (K_SCALE as nat) / (ELECTRON_REST_ENERGY as nat),
    ;
    assert(k * k <= 0x8000_0000_0000_0000u128 * 0x8000_0000_0000_0000u128)
        by (nonlinear_arith)
        requires
            k <= 0x8000_0000_0000_0000u128,
    ;
    assert(K_SCALE * K_SCALE <= k * k) by (nonlinear_arith)
        requires
            (K_SCALE as nat) <= (k as nat),
    ;
    let s: u64 = isqrt(k * k - K_SCALE * K_SCALE);
    proof {
        let kk = (k * k - (K_SCALE as nat) * (K_SCALE as nat)) as nat;
        assert((s as nat) * (s as nat) < (k as nat) * (k as nat)) by (nonlinear_arith)
            requires
                (s as nat) * (s as nat) <= kk,
                kk == (k as nat) * (k as nat) - (K_SCALE as nat) * (K_SCALE as nat),
                K_SCALE >= 1,
        ;
        assert((s as nat) < k as nat) by (nonlinear_arith)
            requires
                (s as nat) * (s as nat) < (k as nat) * (k as nat),
        ;
        assert((LIGHT_SPEED as nat) * (s as nat) < (LIGHT_SPEED as nat) * (k as nat))
            by (nonlinear_arith)
            requires
                (s as nat) < (k as nat),
                LIGHT_SPEED > 0,
        ;
        assert((LIGHT_SPEED as nat) * (s as nat) / (k as nat) < LIGHT_SPEED)
            by (nonlinear_arith)
            requires
                (LIGHT_SPEED as nat) * (s as nat) < (LIGHT_SPEED as nat) * (k as nat),
                k > 0,
        ;
    }
    let v: u128 = (LIGHT_SPEED as u128) * (s as u128) / k;
    v as u64
}

/// Converts a speed (m/s) back to a kinetic energy (meV) for the given
/// species.  The result never exceeds `MAX_PARTICLE_ENERGY`, so it can be
/// fed back into `energy_to_velocity`.
pub fn velocity_to_energy(velocity: u64, particle_type: ParticleType) -> (e: u64)
    requires
        velocity < LIGHT_SPEED,
    ensures
        e == spec_velocity_to_energy(velocity as nat, spec_rest_energy(particle_type)),
        e <= MAX_PARTICLE_ENERGY,
        velocity == 0 ==> e == 0,
{
    let rest = rest_energy(particle_type);
    assert((velocity as nat) * (velocity as nat) + 2 * LIGHT_SPEED <= (LIGHT_SPEED as nat)
        * (LIGHT_SPEED as nat) + 1) by (nonlinear_arith)
        requires
            velocity < LIGHT_SPEED,
    ;
    let diff: u128 = (LIGHT_SPEED as u128) * (LIGHT_SPEED as u128) - (velocity as u128)
        * (velocity as u128);
    let d: u64 = isqrt(diff);
    proof {
        // diff >= 2c - 1, and isqrt is monotone, so d >= isqrt(2c - 1) == 24486.
        assert(24486 * 24486 <= 2 * (LIGHT_SPEED as nat) - 1);
        if (d as nat) < 24486 {
            assert((d as nat + 1) * (d as nat + 1) <= 24486 * 24486) by (nonlinear_arith)
                requires
                    d as nat + 1 <= 24486,
            ;
        }
        assert(d >= 24486);
        // d <= c, so k >= K_SCALE.
        if (d as nat) > LIGHT_SPEED as nat {
            assert((LIGHT_SPEED as nat) * (LIGHT_SPEED as nat) < (d as nat) * (d as nat))
                by (nonlinear_arith)
                requires
                    (LIGHT_SPEED as nat) < (d as nat),
            ;
        }
        assert(d <= LIGHT_SPEED);
        assert((LIGHT_SPEED as nat) * (K_SCALE as nat) / (d as nat) >= K_SCALE)
            by (nonlinear_arith)
            requires
                1 <= d <= LIGHT_SPEED,
                K_SCALE > 0,
        ;
        assert((LIGHT_SPEED as nat) * (K_SCALE as nat) / (d as nat) <= (LIGHT_SPEED as nat)
            * (K_SCALE as nat) / 24486) by (nonlinear_arith)
            requires
                d >= 24486,
        ;
    }
    let k: u128 = (LIGHT_SPEED as u128) * K_SCALE / (d as u128);
    proof {
        assert(((k - K_SCALE) as nat) * (rest as nat) / (K_SCALE as nat) <= ((
        (LIGHT_SPEED as nat) * (K_SCALE as nat) / 24486 - K_SCALE) as nat) * (
        ALPHA_REST_ENERGY as nat) / (K_SCALE as nat)) by (nonlinear_arith)
            requires
                K_SCALE <= k <= (LIGHT_SPEED as nat) * (K_SCALE as nat) / 24486,
                0 < rest <= ALPHA_REST_ENERGY,
                K_SCALE > 0,
        ;
    }
    let e: u128 = (k - K_SCALE) * (rest as u128) / K_SCALE;
    proof {
        if velocity == 0 {
            lemma_round_trip_zero(particle_type);
        }
    }
    e as u64
}

/// An energy of zero converts to a speed of zero, and a speed of zero
/// converts back to an energy of exactly zero, for every species.
pub proof fn lemma_round_trip_zero(particle_type: ParticleType)
    ensures
        spec_energy_to_velocity(0, spec_rest_energy(particle_type)) == 0,
        spec_velocity_to_energy(0, spec_rest_energy(particle_type)) == 0,
{
    let rest = spec_rest_energy(particle_type);
    assert(spec_k_factor(0, rest) == K_SCALE);
    assert(spec_isqrt(0) == 0);
    assert((LIGHT_SPEED as nat) * 0 == 0) by (nonlinear_arith);
    // The inverse at v == 0: the square root of c^2 is exactly c.
    let cc = (LIGHT_SPEED as nat) * (LIGHT_SPEED as nat);
    assert(cc < ((LIGHT_SPEED as nat) + 1) * ((LIGHT_SPEED as nat) + 1)) by (nonlinear_arith)
        requires
            cc == (LIGHT_SPEED as nat) * (LIGHT_SPEED as nat),
    ;
    lemma_isqrt_unique(cc, LIGHT_SPEED as nat);
    assert(((cc - 0 * 0) as nat) == cc) by (nonlinear_arith);
    assert(spec_isqrt((cc - 0 * 0) as nat) == LIGHT_SPEED as nat);
    assert((LIGHT_SPEED as nat) * (K_SCALE as nat) / (LIGHT_SPEED as nat) == K_SCALE as nat)
        by (nonlinear_arith)
        requires
            LIGHT_SPEED > 0,
    ;
    assert((0 as nat) * rest == 0) by (nonlinear_arith);
}

} // verus!
