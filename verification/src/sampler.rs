//! The decay/emission sampler: expected decay counts per tick, stochastic
//! rounding, decay classification, and the emission of charged particles and
//! correlated gamma quanta with randomized direction and position.

use vstd::prelude::*;

use crate::constants::{LIGHT_SPEED, MAX_DENSITY, MAX_EXTENT, PPM};
use crate::data_reading::{
    classify_decay, spec_classify_decay, spec_element_wf, Isotope, Substance, SubstanceData,
};
use crate::kinematics::{energy_to_velocity, MAX_PARTICLE_ENERGY};
use crate::material::spec_resolve;
use crate::math::{add_clamped, isqrt, mul_u64, spec_add_clamped, spec_isqrt};
use crate::particle::{
    Extent3, LinearSpawner, Object, Particle, ParticleType, TimeData, TrackedParticle, Vec3,
    MAX_TIME_STEP,
};
use crate::rng::rand_below;

verus! {

/// The expected number of decays in one calculation tick, in ppm:
/// `activity * mass * tick interval`, with the mass taken from the volume of
/// the extents and the substance density.  The product is evaluated in
/// stages, each rounding down, and the result is capped at the largest
/// `u64`.
pub open spec fn spec_expected_decays(
    activity: u64,
    density: u64,
    extents: Extent3,
    t_fs: u64,
) -> int {
    let a1 = (activity as int) * (density as int);
    let a2 = a1 / 1_000_000_000_000;
    let a3 = a2 * (t_fs as int);
    let a4 = a3 / 1_000_000_000_000;
    let vol = (extents.x as int) * (extents.y as int) * (extents.z as int);
    let v1 = vol / 1_000_000_000_000;
    let a5 = a4 * v1;
    crate::data_reading::spec_cap_u64(a5 / 1_000_000)
}

/// Computes the expected decay count of a volume for one tick, in ppm.
pub fn expected_decays(activity: u64, density: u64, extents: Extent3, t_fs: u64) -> (r: u64)
    requires
        density <= MAX_DENSITY,
        extents.wf(),
        t_fs <= MAX_TIME_STEP,
    ensures
        r == spec_expected_decays(activity, density, extents, t_fs),
{
    let a1: u128 = mul_u64(activity, density);
    let a2: u128 = a1 / 1_000_000_000_000;
    proof {
        assert(a1 <= (u64::MAX as int) * (MAX_DENSITY as int)) by (nonlinear_arith)
            requires
                a1 == (activity as int) * (density as int),
                activity <= u64::MAX,
                density <= MAX_DENSITY,
        ;
        assert((a2 as int) * (t_fs as int) <= ((u64::MAX as int) * (MAX_DENSITY as int)
            / 1_000_000_000_000) * (MAX_TIME_STEP as int)) by (nonlinear_arith)
            requires
                0 <= a2 <= (u64::MAX as int) * (MAX_DENSITY as int) / 1_000_000_000_000,
                0 <= t_fs <= MAX_TIME_STEP,
        ;
    }
    let a3: u128 = a2 * (t_fs as u128);
    let a4: u128 = a3 / 1_000_000_000_000;
    let v01: u128 = mul_u64(extents.x, extents.y);
    proof {
        assert(v01 <= (MAX_EXTENT as int) * (MAX_EXTENT as int)) by (nonlinear_arith)
            requires
                v01 == (extents.x as int) * (extents.y as int),
                extents.x <= MAX_EXTENT,
                extents.y <= MAX_EXTENT,
        ;
        assert((v01 as int) * (extents.z as int) <= (MAX_EXTENT as int) * (MAX_EXTENT as int) * (
        MAX_EXTENT as int)) by (nonlinear_arith)
            requires
                0 <= v01 <= (MAX_EXTENT as int) * (MAX_EXTENT as int),
                0 <= extents.z <= MAX_EXTENT,
        ;
    }
    let vol: u128 = v01 * (extents.z as u128);
    let v1: u128 = vol / 1_000_000_000_000;
    proof {
        assert(a4 <= 200_000_000_000_000_000int) by (nonlinear_arith)
            requires
                a4 == (a3 as int) / 1_000_000_000_000,
                a3 <= ((u64::MAX as int) * (MAX_DENSITY as int) / 1_000_000_000_000) * (
                MAX_TIME_STEP as int),
        ;
        assert(v1 <= 1_000_000_000_000_000_000_000int) by (nonlinear_arith)
            requires
                v1 == (vol as int) / 1_000_000_000_000,
                vol <= (MAX_EXTENT as int) * (MAX_EXTENT as int) * (MAX_EXTENT as int),
        ;
        assert((a4 as int) * (v1 as int) <= 200_000_000_000_000_000int
            * 1_000_000_000_000_000_000_000int) by (nonlinear_arith)
            requires
                0 <= a4 <= 200_000_000_000_000_000int,
                0 <= v1 <= 1_000_000_000_000_000_000_000int,
        ;
    }
    let a5: u128 = a4 * v1;
    let a6: u128 = a5 / 1_000_000;
    if a6 > u64::MAX as u128 {
        u64::MAX
    } else {
        a6 as u64
    }
}

/// The stochastically rounded decay count: the integer part of the expected
/// count, plus one when its fractional part exceeds the draw.  Over uniform
/// draws this keeps the long-run decay rate unbiased even below one decay
/// per tick.
pub open spec fn spec_decay_count(expected: u64, draw: u64) -> int {
    (expected as int) / (PPM as int) + if (expected as int) % (PPM as int) > draw {
        1int
    } else {
        0int
    }
}

/// Rounds an expected decay count (in ppm) to a whole count with one draw.
pub fn decay_count(expected: u64, draw: u64) -> (r: u64)
    requires
        draw < PPM,
    ensures
        r == spec_decay_count(expected, draw),
{
    let floor = expected / PPM;
    let frac = expected % PPM;
    if frac > draw {
        floor + 1
    } else {
        floor
    }
}

/// A component scaled from a direction vector onto a speed: the magnitude
/// is multiplied by `magnitude / norm`, rounding down, keeping the sign.
pub open spec fn spec_scaled_component(c: int, magnitude: u64, norm: u64) -> int {
    if c >= 0 {
        c * (magnitude as int) / (norm as int)
    } else {
        -((-c) * (magnitude as int) / (norm as int))
    }
}

/// Scales one direction component onto a speed.
pub fn scaled_component(c: i64, magnitude: u64, norm: u64) -> (r: i64)
    requires
        1 <= norm <= LIGHT_SPEED,
        -(norm as int) <= c as int <= norm as int,
        magnitude <= LIGHT_SPEED,
    ensures
        r == spec_scaled_component(c as int, magnitude, norm),
        -(magnitude as int) <= r as int <= magnitude as int,
{
    proof {
        let a = if c >= 0 {
            c as int
        } else {
            -(c as int)
        };
        assert(a * (magnitude as int) <= (norm as int) * (magnitude as int)) by (nonlinear_arith)
            requires
                0 <= a <= norm as int,
                0 <= magnitude as int,
        ;
        assert((norm as int) * (magnitude as int) / (norm as int) == magnitude as int)
            by (nonlinear_arith)
            requires
                norm >= 1,
        ;
        assert(a * (magnitude as int) / (norm as int) <= (norm as int) * (magnitude as int) / (
        norm as int)) by (nonlinear_arith)
            requires
                a * (magnitude as int) <= (norm as int) * (magnitude as int),
                norm >= 1,
        ;
        assert(0 <= a * (magnitude as int)) by (nonlinear_arith)
            requires
                0 <= a,
                0 <= magnitude as int,
        ;
    }
    proof {
        assert((norm as int) * (magnitude as int) <= 299_792_458int * 299_792_458int)
            by (nonlinear_arith)
            requires
                0 <= norm as int <= 299_792_458int,
                0 <= magnitude as int <= 299_792_458int,
        ;
    }
    if c >= 0 {
        let scaled: u128 = (c as u128) * (magnitude as u128) / (norm as u128);
        scaled as i64
    } else {
        let mag: u64 = (-c) as u64;
        let scaled: u128 = (mag as u128) * (magnitude as u128) / (norm as u128);
        -(scaled as i64)
    }
}

/// The velocity vector of an emission: the three draws (each over
/// `0..2001`) give a direction with components in `-1000..=1000`; an
/// all-zero direction falls back to the x axis; the direction is scaled to
/// the given speed through its own norm.
pub open spec fn spec_direction_velocity(d1: u64, d2: u64, d3: u64, speed: u64) -> Vec3 {
    let c1 = d1 - 1000;
    let c2 = d2 - 1000;
    let c3 = d3 - 1000;
    if c1 == 0 && c2 == 0 && c3 == 0 {
        Vec3 { x: speed as i64, y: 0, z: 0 }
    } else {
        let norm = spec_isqrt((c1 * c1 + c2 * c2 + c3 * c3) as nat);
        Vec3 {
            x: spec_scaled_component(c1, speed, norm as u64) as i64,
            y: spec_scaled_component(c2, speed, norm as u64) as i64,
            z: spec_scaled_component(c3, speed, norm as u64) as i64,
        }
    }
}

/// Builds an isotropic random direction from three draws and scales it to a
/// speed.
pub fn direction_velocity(d1: u64, d2: u64, d3: u64, speed: u64) -> (v: Vec3)
    requires
        d1 < 2001,
        d2 < 2001,
        d3 < 2001,
        speed <= LIGHT_SPEED,
    ensures
        v == spec_direction_velocity(d1, d2, d3, speed),
        -(speed as int) <= v.x as int <= speed as int,
        -(speed as int) <= v.y as int <= speed as int,
        -(speed as int) <= v.z as int <= speed as int,
{
    let c1: i64 = d1 as i64 - 1000;
    let c2: i64 = d2 as i64 - 1000;
    let c3: i64 = d3 as i64 - 1000;
    if c1 == 0 && c2 == 0 && c3 == 0 {
        Vec3 { x: speed as i64, y: 0, z: 0 }
    } else {
        proof {
            assert((c1 as int) * (c1 as int) <= 1_000_000 && 0 <= (c1 as int) * (c1 as int))
                by (nonlinear_arith)
                requires
                    -1000 <= c1 as int <= 1000,
            ;
            assert((c2 as int) * (c2 as int) <= 1_000_000 && 0 <= (c2 as int) * (c2 as int))
                by (nonlinear_arith)
                requires
                    -1000 <= c2 as int <= 1000,
            ;
            assert((c3 as int) * (c3 as int) <= 1_000_000 && 0 <= (c3 as int) * (c3 as int))
                by (nonlinear_arith)
                requires
                    -1000 <= c3 as int <= 1000,
            ;
        }
        let nn: u64 = (c1 * c1 + c2 * c2 + c3 * c3) as u64;
        let norm: u64 = isqrt(nn as u128);
        proof {
            if c1 != 0 {
                assert(1 <= (c1 as int) * (c1 as int)) by (nonlinear_arith)
                    requires
                        c1 != 0,
                ;
            }
            if c2 != 0 {
                assert(1 <= (c2 as int) * (c2 as int)) by (nonlinear_arith)
                    requires
                        c2 != 0,
                ;
            }
            if c3 != 0 {
                assert(1 <= (c3 as int) * (c3 as int)) by (nonlinear_arith)
                    requires
                        c3 != 0,
                ;
            }
            assert(nn >= 1);
            if norm == 0 {
                assert((nn as nat) < (0 + 1) * (0 + 1));
            }
            assert(norm >= 1);
            assert(norm <= nn) by (nonlinear_arith)
                requires
                    norm >= 1,
                    (norm as nat) * (norm as nat) <= nn as nat,
            ;
            assert((c1 as int) * (c1 as int) <= nn as int);
            if c1 as int > norm as int {
                assert((norm as int + 1) * (norm as int + 1) <= (c1 as int) * (c1 as int))
                    by (nonlinear_arith)
                    requires
                        norm as int + 1 <= c1 as int,
                ;
            }
            if -(c1 as int) > norm as int {
                assert((norm as int + 1) * (norm as int + 1) <= (c1 as int) * (c1 as int))
                    by (nonlinear_arith)
                    requires
                        norm as int + 1 <= -(c1 as int),
                ;
            }
            if c2 as int > norm as int {
                assert((norm as int + 1) * (norm as int + 1) <= (c2 as int) * (c2 as int))
                    by (nonlinear_arith)
                    requires
                        norm as int + 1 <= c2 as int,
                ;
            }
            if -(c2 as int) > norm as int {
                assert((norm as int + 1) * (norm as int + 1) <= (c2 as int) * (c2 as int))
                    by (nonlinear_arith)
                    requires
                        norm as int + 1 <= -(c2 as int),
                ;
            }
            if c3 as int > norm as int {
                assert((norm as int + 1) * (norm as int + 1) <= (c3 as int) * (c3 as int))
                    by (nonlinear_arith)
                    requires
                        norm as int + 1 <= c3 as int,
                ;
            }
            if -(c3 as int) > norm as int {
                assert((norm as int + 1) * (norm as int + 1) <= (c3 as int) * (c3 as int))
                    by (nonlinear_arith)
                    requires
                        norm as int + 1 <= -(c3 as int),
                ;
            }
        }
        Vec3 {
            x: scaled_component(c1, speed, norm),
            y: scaled_component(c2, speed, norm),
            z: scaled_component(c3, speed, norm),
        }
    }
}

/// The position offset of an emission along one axis: uniform inside the
/// extent, centred on the volume's position.
pub open spec fn spec_offset_component(extent: u64, draw: u64) -> int {
    (draw as int) - (extent as int) / 2
}

/// Draws one offset component inside an extent.
pub fn offset_component(extent: u64, draw: u64) -> (r: i64)
    requires
        extent <= MAX_EXTENT,
        draw <= extent,
    ensures
        r == spec_offset_component(extent, draw),
        -(extent as int) <= r as int <= extent as int,
{
    (draw as i64) - ((extent / 2) as i64)
}

/// What every freshly emitted particle satisfies: the speed invariant, and
/// the placeholder energy of one eV on charged particles, whose true energy
/// lives in their velocity.
pub open spec fn spec_spawned(p: TrackedParticle) -> bool {
    &&& p.speed_wf()
    &&& !(p.particle.particle_type is Gamma) ==> p.particle.energy == 1000
}

/// The error a tick reports for malformed source data: a usable isotope
/// whose decay class cannot be emitted, or one whose activity could not be
/// derived.  A catalog that passes validation produces neither.
#[derive(Debug, Clone, Copy, PartialEq, Eq, Structural)]
pub enum SourceDataError {
    UnsupportedDecay,
    MissingActivity,
}

/// Every substance reachable through a volume's mixture that selects a
/// usable isotope has a supported decay class and a derived activity.
pub open spec fn spec_sources_ok(objects: Seq<Object>, data: SubstanceData) -> bool {
    forall|oi: int, pi: int|
        0 <= oi < objects.len() && 0 <= pi < objects[oi].material.parts@.len() ==> {
            let s = (#[trigger] objects[oi].material.parts@[pi]).1;
            s is Element && s.spec_wf(data) && s.spec_isotope(data).is_usable
                ==> spec_classify_decay(s.spec_isotope(data).decay.decay_type) is Some
                    && s.spec_isotope(data).activity is Some
        }
}

/// No volume's mixture reaches a usable isotope at all: a scene of
/// compounds and stable or negligible isotopes.
pub open spec fn spec_no_radiator(objects: Seq<Object>, data: SubstanceData) -> bool {
    forall|oi: int, pi: int|
        0 <= oi < objects.len() && 0 <= pi < objects[oi].material.parts@.len() ==> {
            let s = (#[trigger] objects[oi].material.parts@[pi]).1;
            !(s is Element && s.spec_wf(data) && s.spec_isotope(data).is_usable)
        }
}

/// A volume whose single-part mixture resolves, independently of the draw,
/// to a usable isotope with malformed source data: an unsupported decay
/// class or a missing activity.
pub open spec fn spec_certain_fault(o: Object, data: SubstanceData) -> bool {
    &&& o.material.parts@.len() == 1
    &&& {
        let s = o.material.parts@[0].1;
        &&& s is Element
        &&& s.spec_wf(data)
        &&& s.spec_isotope(data).is_usable
        &&& (spec_classify_decay(s.spec_isotope(data).decay.decay_type) is None
            || s.spec_isotope(data).activity is None)
    }
}

/// A volume whose single-part mixture resolves, independently of the draw,
/// to a well-formed usable source expecting at least one whole decay per
/// sub-step.
pub open spec fn spec_certain_source(o: Object, data: SubstanceData, t_calc: u64) -> bool {
    &&& o.material.parts@.len() == 1
    &&& {
        let s = o.material.parts@[0].1;
        &&& s is Element
        &&& s.spec_wf(data)
        &&& s.spec_isotope(data).is_usable
        &&& spec_classify_decay(s.spec_isotope(data).decay.decay_type) is Some
        &&& (s.spec_isotope(data).activity matches Some(a) && spec_expected_decays(
            a,
            s.spec_density(data),
            o.extents,
            t_calc,
        ) / (PPM as int) >= 1)
    }
}

/// What one decay of an isotope emits: a charged particle of the decay's
/// classified species, carrying the decay energy in its speed and the
/// one-eV placeholder in its energy field, or the correlated gamma quantum
/// carrying the decay's gamma energy at light speed.
pub open spec fn spec_emission_of(p: TrackedParticle, iso: Isotope) -> bool {
    if p.particle.particle_type is Gamma {
        &&& iso.decay.gamma_energy == Some(p.particle.energy)
        &&& p.speed == LIGHT_SPEED
    } else {
        &&& spec_classify_decay(iso.decay.decay_type) == Some(p.particle.particle_type)
        &&& p.particle.energy == 1000
        &&& p.speed == crate::kinematics::spec_energy_to_velocity(
            iso.decay.decay_energy as nat,
            crate::kinematics::spec_rest_energy(p.particle.particle_type),
        )
    }
}

/// The particle is an emission of some usable isotope reachable through
/// some volume's mixture.
pub open spec fn spec_emission_reachable(
    p: TrackedParticle,
    objects: Seq<Object>,
    data: SubstanceData,
) -> bool {
    exists|oi: int, pi: int|
        0 <= oi < objects.len() && 0 <= pi < objects[oi].material.parts@.len() && {
            let s = (#[trigger] objects[oi].material.parts@[pi]).1;
            &&& s is Element
            &&& s.spec_wf(data)
            &&& s.spec_isotope(data).is_usable
            &&& spec_emission_of(p, s.spec_isotope(data))
        }
}

/// What each particle a single decay pushes satisfies, over the decay's
/// classified species, energy and gamma energy.
pub open spec fn spec_emission_matches(
    p: TrackedParticle,
    species: ParticleType,
    decay_energy: u64,
    gamma_energy: Option<u64>,
) -> bool {
    if p.particle.particle_type is Gamma {
        &&& gamma_energy == Some(p.particle.energy)
        &&& p.speed == LIGHT_SPEED
    } else {
        &&& p.particle.particle_type == species
        &&& p.particle.energy == 1000
        &&& p.speed == crate::kinematics::spec_energy_to_velocity(
            decay_energy as nat,
            crate::kinematics::spec_rest_energy(species),
        )
    }
}

/// An emission that matches its decay's data is an emission of any
/// reachable isotope carrying that data.
proof fn lemma_emission_reachable(
    p: TrackedParticle,
    objects: Seq<Object>,
    data: SubstanceData,
    oi: int,
    pi: int,
    iso: Isotope,
    species: ParticleType,
)
    requires
        0 <= oi < objects.len(),
        0 <= pi < objects[oi].material.parts@.len(),
        objects[oi].material.parts@[pi].1 is Element,
        objects[oi].material.parts@[pi].1.spec_wf(data),
        objects[oi].material.parts@[pi].1.spec_isotope(data) == iso,
        iso.is_usable,
        spec_classify_decay(iso.decay.decay_type) == Some(species),
        spec_emission_matches(p, species, iso.decay.decay_energy, iso.decay.gamma_energy),
    ensures
        spec_emission_reachable(p, objects, data),
{
    assert(spec_emission_of(p, iso));
}

/// A resolved substance is always one of the mixture's own parts.
pub proof fn lemma_resolve_in_parts(parts: Seq<(u64, Substance)>, draw: int)
    requires
        parts.len() > 0,
    ensures
        exists|i: int| 0 <= i < parts.len() && spec_resolve(parts, draw) == (#[trigger] parts[i]).1,
    decreases parts.len(),
{
    if parts.len() <= 1 || parts[0].0 > draw {
        assert(spec_resolve(parts, draw) == parts[0].1);
    } else {
        lemma_resolve_in_parts(parts.drop_first(), draw - parts[0].0);
        let i = choose|i: int|
            0 <= i < parts.drop_first().len() && spec_resolve(
                parts.drop_first(),
                draw - parts[0].0,
            ) == (#[trigger] parts.drop_first()[i]).1;
        assert(parts[i + 1] == parts.drop_first()[i]);
    }
}

/// Emits one decay's charged particle, and its correlated gamma quantum
/// exactly when the decay carries one, into `out`.
fn emit_decay(
    out: &mut Vec<TrackedParticle>,
    species: ParticleType,
    decay_energy: u64,
    gamma_energy: Option<u64>,
    position: Vec3,
    extents: Extent3,
)
    requires
        decay_energy <= MAX_PARTICLE_ENERGY,
        !(species is Gamma),
        extents.wf(),
    ensures
        final(out)@.len() == old(out)@.len() + (if gamma_energy is Some {
            2int
        } else {
            1int
        }),
        forall|i: int| 0 <= i < old(out)@.len() ==> final(out)@[i] == old(out)@[i],
        forall|i: int|
            old(out)@.len() <= i < final(out)@.len() ==> spec_spawned(#[trigger] final(out)@[i])
                && spec_emission_matches(final(out)@[i], species, decay_energy, gamma_energy),
{
    let d1 = rand_below(2001);
    let d2 = rand_below(2001);
    let d3 = rand_below(2001);
    let ox = offset_component(extents.x, if extents.x == 0 { 0 } else { rand_below(extents.x + 1) });
    let oy = offset_component(extents.y, if extents.y == 0 { 0 } else { rand_below(extents.y + 1) });
    let oz = offset_component(extents.z, if extents.z == 0 { 0 } else { rand_below(extents.z + 1) });
    let pos = Vec3 {
        x: add_clamped(position.x, ox),
        y: add_clamped(position.y, oy),
        z: add_clamped(position.z, oz),
    };
    let speed = energy_to_velocity(decay_energy, species);
    let velocity = direction_velocity(d1, d2, d3, speed);
    let charged = TrackedParticle {
        particle: Particle { particle_type: species, energy: 1000 },
        position: pos,
        velocity,
        speed,
    };
    assert(spec_spawned(charged) && spec_emission_matches(
        charged,
        species,
        decay_energy,
        gamma_energy,
    ));
    out.push(charged);
    match gamma_energy {
        Some(ge) => {
            let gamma_velocity = direction_velocity(d1, d2, d3, LIGHT_SPEED);
            let photon = TrackedParticle {
                particle: Particle { particle_type: ParticleType::Gamma, energy: ge },
                position: pos,
                velocity: gamma_velocity,
                speed: LIGHT_SPEED,
            };
            assert(spec_spawned(photon) && spec_emission_matches(
                photon,
                species,
                decay_energy,
                gamma_energy,
            ));
            out.push(photon);
        },
        None => {},
    }
}

/// Samples one tick's decays for every volume: resolves each volume's
/// substance once, and for each sub-step draws a stochastically rounded
/// decay count from the volume's activity and mass, emitting one charged
/// particle (plus one gamma quantum exactly when the decay carries a gamma
/// energy) per decay.  A usable isotope with an unsupported decay class or
/// a missing activity is reported as malformed source data.  A halted
/// clock emits nothing.
pub fn spawn_object_particles(
    objects: &Vec<Object>,
    time_data: &TimeData,
    data: &SubstanceData,
) -> (r: Result<Vec<TrackedParticle>, SourceDataError>)
    requires
        time_data.wf(),
        data.spec_wf(),
        forall|i: int| 0 <= i < objects@.len() ==> (#[trigger] objects@[i]).wf(*data),
    ensures
        time_data.halted ==> (r matches Ok(ps) && ps@.len() == 0),
        r matches Ok(ps) ==> forall|i: int|
            0 <= i < ps@.len() ==> spec_spawned(#[trigger] ps@[i]) && spec_emission_reachable(
                ps@[i],
                objects@,
                *data,
            ),
        spec_sources_ok(objects@, *data) ==> r is Ok,
        spec_no_radiator(objects@, *data) ==> (r matches Ok(ps) && ps@.len() == 0),
        !time_data.halted && (exists|oi: int|
            0 <= oi < objects@.len() && spec_certain_fault(#[trigger] objects@[oi], *data))
            ==> r is Err,
        !time_data.halted && (exists|oi: int|
            0 <= oi < objects@.len() && spec_certain_source(
                #[trigger] objects@[oi],
                *data,
                time_data.time_step_calc,
            )) ==> (r matches Ok(ps) ==> ps@.len() >= time_data.multi_step),
{
    let mut out: Vec<TrackedParticle> = Vec::new();
    if time_data.halted {
        return Ok(out);
    }
    let no = objects.len();
    let mut oi: usize = 0;
    while oi < no
        invariant
            0 <= oi <= no,
            no == objects@.len(),
            time_data.wf(),
            !time_data.halted,
            data.spec_wf(),
            forall|i: int| 0 <= i < objects@.len() ==> (#[trigger] objects@[i]).wf(*data),
            forall|i: int|
                0 <= i < out@.len() ==> spec_spawned(#[trigger] out@[i])
                    && spec_emission_reachable(out@[i], objects@, *data),
            forall|q: int| 0 <= q < oi ==> !spec_certain_fault(#[trigger] objects@[q], *data),
            spec_no_radiator(objects@, *data) ==> out@.len() == 0,
            (exists|q: int|
                0 <= q < oi && spec_certain_source(
                    #[trigger] objects@[q],
                    *data,
                    time_data.time_step_calc,
                )) ==> out@.len() >= time_data.multi_step,
        decreases no - oi,
    {
        let object = &objects[oi];
        let substance = object.material.pick_substance();
        let ghost d: u64 = choose|d: u64|
            d < PPM && substance == spec_resolve(object.material.parts@, d as int);
        proof {
            lemma_resolve_in_parts(object.material.parts@, d as int);
            if object.material.parts@.len() == 1 {
                assert(substance == object.material.parts@[0].1);
            }
        }
        let ghost pidx: int = choose|pi: int|
            0 <= pi < object.material.parts@.len() && substance == (
            #[trigger] object.material.parts@[pi]).1;
        assert(substance.spec_wf(*data));
        let ghost out_before: int = out@.len() as int;
        match substance {
            Substance::Element { element, isotope } => {
                let iso = data.elements[element].isotopes[isotope];
                assert(iso == substance.spec_isotope(*data));
                if iso.is_usable {
                    proof {
                        assert(!spec_no_radiator(objects@, *data)) by {
                            assert(objects@[oi as int].material.parts@[pidx].1 == substance);
                        }
                    }
                    let species = match classify_decay(iso.decay.decay_type) {
                        Some(s) => s,
                        None => {
                            proof {
                                assert(!spec_sources_ok(objects@, *data)) by {
                                    assert(objects@[oi as int].material.parts@[pidx].1
                                        == substance);
                                }
                            }
                            return Err(SourceDataError::UnsupportedDecay);
                        },
                    };
                    let activity = match iso.activity {
                        Some(a) => a,
                        None => {
                            proof {
                                assert(!spec_sources_ok(objects@, *data)) by {
                                    assert(objects@[oi as int].material.parts@[pidx].1
                                        == substance);
                                }
                            }
                            return Err(SourceDataError::MissingActivity);
                        },
                    };
                    assert(spec_element_wf(data.elements@[element as int]));
                    let density = data.elements[element].density;
                    let expected = expected_decays(
                        activity,
                        density,
                        object.extents,
                        time_data.time_step_calc,
                    );
                    let ghost certain: bool = spec_certain_source(
                        objects@[oi as int],
                        *data,
                        time_data.time_step_calc,
                    );
                    proof {
                        if certain {
                            assert(expected / PPM >= 1);
                        }
                    }
                    let mut step: usize = 0;
                    while step < time_data.multi_step
                        invariant
                            0 <= step <= time_data.multi_step,
                            data.spec_wf(),
                            no == objects@.len(),
                            oi < no,
                            iso.decay.decay_energy <= MAX_PARTICLE_ENERGY,
                            !(species is Gamma),
                            object.extents.wf(),
                            *object == objects@[oi as int],
                            0 <= pidx < objects@[oi as int].material.parts@.len(),
                            objects@[oi as int].material.parts@[pidx].1 == substance,
                            substance is Element,
                            substance.spec_wf(*data),
                            substance.spec_isotope(*data) == iso,
                            iso.is_usable,
                            spec_classify_decay(iso.decay.decay_type) == Some(species),
                            certain ==> expected / PPM >= 1,
                            forall|i: int|
                                0 <= i < out@.len() ==> spec_spawned(#[trigger] out@[i])
                                    && spec_emission_reachable(out@[i], objects@, *data),
                            out@.len() >= out_before,
                            certain ==> out@.len() >= out_before + step,
                        decreases time_data.multi_step - step,
                    {
                        let decays = decay_count(expected, rand_below(PPM));
                        assert(decays >= expected / PPM);
                        let ghost out_substep: int = out@.len() as int;
                        let mut k: u64 = 0;
                        while k < decays
                            invariant
                                0 <= k <= decays,
                                data.spec_wf(),
                                no == objects@.len(),
                                oi < no,
                                iso.decay.decay_energy <= MAX_PARTICLE_ENERGY,
                                !(species is Gamma),
                                object.extents.wf(),
                                *object == objects@[oi as int],
                                0 <= pidx < objects@[oi as int].material.parts@.len(),
                                objects@[oi as int].material.parts@[pidx].1 == substance,
                                substance is Element,
                                substance.spec_wf(*data),
                                substance.spec_isotope(*data) == iso,
                                iso.is_usable,
                                spec_classify_decay(iso.decay.decay_type) == Some(species),
                                forall|i: int|
                                    0 <= i < out@.len() ==> spec_spawned(#[trigger] out@[i])
                                        && spec_emission_reachable(out@[i], objects@, *data),
                                out@.len() >= out_substep + k,
                                out_substep >= out_before,
                            decreases decays - k,
                        {
                            let ghost prev_len: int = out@.len() as int;
                            emit_decay(
                                &mut out,
                                species,
                                iso.decay.decay_energy,
                                iso.decay.gamma_energy,
                                object.position,
                                object.extents,
                            );
                            proof {
                                assert forall|i: int|
                                    prev_len <= i < out@.len() implies spec_spawned(
                                    #[trigger] out@[i],
                                ) && spec_emission_reachable(out@[i], objects@, *data) by {
                                    lemma_emission_reachable(
                                        out@[i],
                                        objects@,
                                        *data,
                                        oi as int,
                                        pidx,
                                        iso,
                                        species,
                                    );
                                }
                            }
                            k = k + 1;
                        }
                        step = step + 1;
                    }
                    proof {
                        assert(!spec_certain_fault(objects@[oi as int], *data));
                        if certain {
                            assert(out@.len() >= out_before + time_data.multi_step);
                        }
                    }
                } else {
                    proof {
                        assert(!spec_certain_fault(objects@[oi as int], *data));
                        assert(!spec_certain_source(
                            objects@[oi as int],
                            *data,
                            time_data.time_step_calc,
                        ));
                    }
                }
            },
            Substance::Compound { .. } => {
                proof {
                    assert(!spec_certain_fault(objects@[oi as int], *data));
                    assert(!spec_certain_source(
                        objects@[oi as int],
                        *data,
                        time_data.time_step_calc,
                    ));
                }
            },
        }
        oi = oi + 1;
    }
    Ok(out)
}

/// The expected emission count of one directed-source rate over one tick
/// interval, in ppm: `rate * interval`, capped at the largest `u64`.
pub open spec fn spec_linear_expected(rate: u64, t_fs: u64) -> int {
    crate::data_reading::spec_cap_u64((rate as int) * (t_fs as int) / 1_000_000_000)
}

/// What every particle of a directed source satisfies: emitted from the
/// source's +x face with its sideways offset inside the extents, moving
/// along +x; a charged particle carries the source energy in its speed and
/// the one-eV placeholder in its energy field, a photon carries it in its
/// energy field at light speed.
pub open spec fn spec_linear_emission(
    p: TrackedParticle,
    position: Vec3,
    extents: Extent3,
    energy: u64,
) -> bool {
    &&& p.position.x == spec_add_clamped(position.x as int, (extents.x as int) / 2)
    &&& (exists|dy: int|
        -(extents.y as int) <= dy <= extents.y as int && p.position.y == spec_add_clamped(
            position.y as int,
            dy,
        ))
    &&& (exists|dz: int|
        -(extents.z as int) <= dz <= extents.z as int && p.position.z == spec_add_clamped(
            position.z as int,
            dz,
        ))
    &&& if p.particle.particle_type is Gamma {
        &&& p.particle.energy == energy
        &&& p.speed == LIGHT_SPEED
        &&& p.velocity == (Vec3 { x: LIGHT_SPEED as i64, y: 0, z: 0 })
    } else {
        &&& (p.particle.particle_type is Alpha || p.particle.particle_type is Electron)
        &&& p.particle.energy == 1000
        &&& p.speed == crate::kinematics::spec_energy_to_velocity(
            energy as nat,
            crate::kinematics::spec_rest_energy(p.particle.particle_type),
        )
        &&& p.velocity == (Vec3 { x: p.speed as i64, y: 0, z: 0 })
    }
}

/// Samples one tick of a directed test source: for each sub-step and each
/// species, a stochastically rounded count from `rate * tick interval`,
/// each emission leaving the source's +x face with a random offset across
/// it.  Every draw emits at least the whole part of each expectation and
/// at most one more; a halted clock emits nothing.
pub fn spawn_linear_particles(
    position: Vec3,
    extents: Extent3,
    spawner: &LinearSpawner,
    time_data: &TimeData,
) -> (r: Vec<TrackedParticle>)
    requires
        time_data.wf(),
        extents.wf(),
        spawner.particle_energy <= MAX_PARTICLE_ENERGY,
    ensures
        time_data.halted ==> r@.len() == 0,
        forall|i: int|
            0 <= i < r@.len() ==> spec_spawned(#[trigger] r@[i]) && spec_linear_emission(
                r@[i],
                position,
                extents,
                spawner.particle_energy,
            ),
        !time_data.halted ==> r@.len() >= time_data.multi_step * (spec_linear_expected(
            spawner.alpha_rate,
            time_data.time_step_calc,
        ) / (PPM as int) + spec_linear_expected(spawner.beta_rate, time_data.time_step_calc) / (
        PPM as int) + spec_linear_expected(spawner.gamma_rate, time_data.time_step_calc) / (
        PPM as int)),
        r@.len() <= time_data.multi_step * (spec_linear_expected(
            spawner.alpha_rate,
            time_data.time_step_calc,
        ) / (PPM as int) + spec_linear_expected(spawner.beta_rate, time_data.time_step_calc) / (
        PPM as int) + spec_linear_expected(spawner.gamma_rate, time_data.time_step_calc) / (
        PPM as int) + 3),
{
    let mut out: Vec<TrackedParticle> = Vec::new();
    if time_data.halted {
        return out;
    }
    let ghost low: int = spec_linear_expected(spawner.alpha_rate, time_data.time_step_calc) / (
    PPM as int) + spec_linear_expected(spawner.beta_rate, time_data.time_step_calc) / (
    PPM as int) + spec_linear_expected(spawner.gamma_rate, time_data.time_step_calc) / (PPM as int);
    let mut step: usize = 0;
    while step < time_data.multi_step
        invariant
            0 <= step <= time_data.multi_step,
            time_data.wf(),
            extents.wf(),
            spawner.particle_energy <= MAX_PARTICLE_ENERGY,
            low == spec_linear_expected(spawner.alpha_rate, time_data.time_step_calc) / (
            PPM as int) + spec_linear_expected(spawner.beta_rate, time_data.time_step_calc) / (
            PPM as int) + spec_linear_expected(spawner.gamma_rate, time_data.time_step_calc) / (
            PPM as int),
            low >= 0,
            forall|i: int|
                0 <= i < out@.len() ==> spec_spawned(#[trigger] out@[i]) && spec_linear_emission(
                    out@[i],
                    position,
                    extents,
                    spawner.particle_energy,
                ),
            out@.len() >= step * low,
            out@.len() <= step * (low + 3),
        decreases time_data.multi_step - step,
    {
        spawn_linear_rate(
            &mut out,
            ParticleType::Alpha,
            spawner.alpha_rate,
            spawner.particle_energy,
            position,
            extents,
            time_data.time_step_calc,
        );
        spawn_linear_rate(
            &mut out,
            ParticleType::Electron,
            spawner.beta_rate,
            spawner.particle_energy,
            position,
            extents,
            time_data.time_step_calc,
        );
        spawn_linear_rate(
            &mut out,
            ParticleType::Gamma,
            spawner.gamma_rate,
            spawner.particle_energy,
            position,
            extents,
            time_data.time_step_calc,
        );
        proof {
            assert((step + 1) * low == step * low + low) by (nonlinear_arith);
            assert((step + 1) * (low + 3) == step * (low + 3) + (low + 3)) by (nonlinear_arith);
        }
        step = step + 1;
    }
    proof {
        assert(out@.len() >= time_data.multi_step * low);
        assert(out@.len() <= time_data.multi_step * (low + 3));
    }
    out
}

/// One sub-step of one species of a directed source: draws the rounded
/// count for `rate * tick interval` and emits that many particles along
/// the x axis — at least the whole part of the expectation, at most one
/// more.
fn spawn_linear_rate(
    out: &mut Vec<TrackedParticle>,
    species: ParticleType,
    rate: u64,
    energy: u64,
    position: Vec3,
    extents: Extent3,
    t_fs: u64,
)
    requires
        energy <= MAX_PARTICLE_ENERGY,
        extents.wf(),
        t_fs <= MAX_TIME_STEP,
        species is Alpha || species is Electron || species is Gamma,
    ensures
        forall|i: int| 0 <= i < old(out)@.len() ==> final(out)@[i] == old(out)@[i],
        forall|i: int|
            old(out)@.len() <= i < final(out)@.len() ==> spec_spawned(#[trigger] final(out)@[i])
                && spec_linear_emission(final(out)@[i], position, extents, energy),
        final(out)@.len() >= old(out)@.len() + spec_linear_expected(rate, t_fs) / (PPM as int),
        final(out)@.len() <= old(out)@.len() + spec_linear_expected(rate, t_fs) / (PPM as int)
            + 1,
{
    let expected128: u128 = mul_u64(rate, t_fs) / 1_000_000_000;
    let expected: u64 = if expected128 > u64::MAX as u128 {
        u64::MAX
    } else {
        expected128 as u64
    };
    assert(expected == spec_linear_expected(rate, t_fs));
    let decays = decay_count(expected, rand_below(PPM));
    assert(expected / PPM <= decays <= expected / PPM + 1);
    let ghost len0: int = old(out)@.len() as int;
    let mut k: u64 = 0;
    while k < decays
        invariant
            0 <= k <= decays,
            energy <= MAX_PARTICLE_ENERGY,
            extents.wf(),
            species is Alpha || species is Electron || species is Gamma,
            0 <= len0,
            out@.len() == len0 + k,
            forall|i: int| 0 <= i < len0 ==> out@[i] == old(out)@[i],
            forall|i: int|
                len0 <= i < out@.len() ==> spec_spawned(#[trigger] out@[i])
                    && spec_linear_emission(out@[i], position, extents, energy),
        decreases decays - k,
    {
        let dy = offset_component(
            extents.y,
            if extents.y == 0 { 0 } else { rand_below(extents.y + 1) },
        );
        let dz = offset_component(
            extents.z,
            if extents.z == 0 { 0 } else { rand_below(extents.z + 1) },
        );
        let pos = Vec3 {
            x: add_clamped(position.x, (extents.x / 2) as i64),
            y: add_clamped(position.y, dy),
            z: add_clamped(position.z, dz),
        };
        let emitted = match species {
            ParticleType::Gamma => TrackedParticle {
                particle: Particle { particle_type: ParticleType::Gamma, energy },
                position: pos,
                velocity: Vec3 { x: LIGHT_SPEED as i64, y: 0, z: 0 },
                speed: LIGHT_SPEED,
            },
            _ => {
                let speed = energy_to_velocity(energy, species);
                TrackedParticle {
                    particle: Particle { particle_type: species, energy: 1000 },
                    position: pos,
                    velocity: Vec3 { x: speed as i64, y: 0, z: 0 },
                    speed,
                }
            },
        };
        assert(spec_spawned(emitted) && spec_linear_emission(emitted, position, extents, energy))
            by {
            assert(emitted.position.y == spec_add_clamped(position.y as int, dy as int));
            assert(emitted.position.z == spec_add_clamped(position.z as int, dz as int));
        }
        let ghost prev = out@;
        out.push(emitted);
        proof {
            assert forall|i: int|
                len0 <= i < out@.len() implies spec_spawned(#[trigger] out@[i])
                    && spec_linear_emission(out@[i], position, extents, energy) by {
                assert(out@ == prev.push(emitted));
                if i < prev.len() {
                    vstd::seq::lemma_seq_push_index_different_alt(prev, emitted, i);
                    assert(out@[i] == prev[i]);
                } else {
                    assert(i == prev.len());
                    assert(prev.push(emitted)[i] == emitted);
                    assert(out@[i] == emitted);
                }
            }
        }
        k = k + 1;
    }
}

} // verus!
