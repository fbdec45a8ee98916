//! The transport stepper: advances every live particle through the tick's
//! sub-steps, resolves the medium at each new position, applies energy loss
//! or photon absorption, accumulates equivalent dose per hit volume, and
//! removes terminated particles.

use vstd::prelude::*;

use crate::constants::{ALPHA_DOSE_WEIGHT, LIGHT_SPEED, PPM};
use crate::data_reading::{
    spec_compound_wf, spec_curve_for, spec_element_wf, Substance, SubstanceData,
};
use crate::kinematics::{
    energy_to_velocity, spec_rest_energy, spec_velocity_to_energy, velocity_to_energy,
};
use crate::material::{spec_resolve, MaterialData};
use crate::math::{add_clamped, mul_u64, spec_add_clamped, spec_exp_neg};
use crate::particle::{
    spec_saturating_add_u64, AmbientMaterial, Object, Particle, ParticleType, TimeData,
    TrackedParticle, Vec3,
};
use crate::rng::rand_below;
use crate::sampler::{lemma_resolve_in_parts, scaled_component, spec_scaled_component};
use crate::stopping::{pick_stopping_power, spec_curve_wf, spec_pick_rate};

verus! {

/// The inclusive-exclusive bounds test of a volume: along each axis the
/// point lies at or after the lower face and strictly before the upper one.
pub open spec fn spec_contains(o: Object, p: Vec3) -> bool {
    let hx = (o.extents.x as int) / 2;
    let hy = (o.extents.y as int) / 2;
    let hz = (o.extents.z as int) / 2;
    &&& o.position.x - hx <= p.x < o.position.x + (o.extents.x - hx)
    &&& o.position.y - hy <= p.y < o.position.y + (o.extents.y - hy)
    &&& o.position.z - hz <= p.z < o.position.z + (o.extents.z - hz)
}

/// Tests a point against a volume's bounding box.
pub fn contains(o: &Object, p: Vec3) -> (r: bool)
    ensures
        r == spec_contains(*o, p),
{
    let hx: i128 = (o.extents.x / 2) as i128;
    let hy: i128 = (o.extents.y / 2) as i128;
    let hz: i128 = (o.extents.z / 2) as i128;
    let px = p.x as i128;
    let py = p.y as i128;
    let pz = p.z as i128;
    let ox = o.position.x as i128;
    let oy = o.position.y as i128;
    let oz = o.position.z as i128;
    ox - hx <= px && px < ox + (o.extents.x as i128 - hx) && oy - hy <= py && py < oy + (
    o.extents.y as i128 - hy) && oz - hz <= pz && pz < oz + (o.extents.z as i128 - hz)
}

/// The index of the first volume whose bounding box contains the point,
/// if any does.
pub open spec fn spec_first_hit(objects: Seq<Object>, p: Vec3) -> Option<int>
    decreases objects.len(),
{
    if objects.len() == 0 {
        None
    } else if spec_contains(objects[0], p) {
        Some(0int)
    } else {
        match spec_first_hit(objects.drop_first(), p) {
            Some(i) => Some(i + 1),
            None => None,
        }
    }
}

/// An index with the first-hit characterization is the first hit.
proof fn lemma_first_hit_some(objects: Seq<Object>, p: Vec3, h: int)
    requires
        0 <= h < objects.len(),
        spec_contains(objects[h], p),
        forall|j: int| 0 <= j < h ==> !spec_contains(objects[j], p),
    ensures
        spec_first_hit(objects, p) == Some(h),
    decreases objects.len(),
{
    if h > 0 {
        assert(forall|j: int|
            0 <= j < objects.len() - 1 ==> #[trigger] objects.drop_first()[j] == objects[j + 1]);
        lemma_first_hit_some(objects.drop_first(), p, h - 1);
    }
}

/// A point no volume contains has no first hit.
proof fn lemma_first_hit_none(objects: Seq<Object>, p: Vec3)
    requires
        forall|j: int| 0 <= j < objects.len() ==> !spec_contains(#[trigger] objects[j], p),
    ensures
        spec_first_hit(objects, p) is None,
    decreases objects.len(),
{
    if objects.len() > 0 {
        assert(forall|j: int|
            0 <= j < objects.len() - 1 ==> #[trigger] objects.drop_first()[j] == objects[j + 1]);
        lemma_first_hit_none(objects.drop_first(), p);
    }
}

/// Finds the first volume whose bounding box contains the point.
pub fn first_hit(objects: &Vec<Object>, p: Vec3) -> (r: Option<usize>)
    ensures
        r matches Some(h) ==> h < objects@.len() && spec_contains(objects@[h as int], p)
            && forall|j: int| 0 <= j < h ==> !spec_contains(objects@[j], p),
        r is None ==> forall|j: int|
            0 <= j < objects@.len() ==> !spec_contains(#[trigger] objects@[j], p),
        r matches Some(h) ==> spec_first_hit(objects@, p) == Some(h as int),
        r is None ==> spec_first_hit(objects@, p) is None,
{
    let n = objects.len();
    let mut i: usize = 0;
    while i < n
        invariant
            0 <= i <= n,
            n == objects@.len(),
            forall|j: int| 0 <= j < i ==> !spec_contains(#[trigger] objects@[j], p),
        decreases n - i,
    {
        if contains(&objects[i], p) {
            proof {
                lemma_first_hit_some(objects@, p, i as int);
            }
            return Some(i);
        }
        i = i + 1;
    }
    proof {
        lemma_first_hit_none(objects@, p);
    }
    None
}

/// The equivalent-dose weighting of an energy transfer: alpha particles
/// count twentyfold, every other species as is.
pub open spec fn spec_dose_weight(t: ParticleType, transfer: u64) -> int {
    if t is Alpha {
        (transfer as int) * (ALPHA_DOSE_WEIGHT as int)
    } else {
        transfer as int
    }
}

/// Weights an energy transfer into equivalent dose.
pub fn dose_weight(t: ParticleType, transfer: u64) -> (r: u128)
    ensures
        r == spec_dose_weight(t, transfer),
{
    match t {
        ParticleType::Alpha => mul_u64(transfer, ALPHA_DOSE_WEIGHT),
        _ => transfer as u128,
    }
}

/// Addition saturating at the largest `u128`.
pub open spec fn spec_saturating_add_u128(a: int, b: int) -> int {
    if a + b > u128::MAX {
        u128::MAX as int
    } else {
        a + b
    }
}

/// Adds an equivalent-dose amount to one accumulator cell, leaving every
/// other cell untouched.  The addition is exact up to the capacity of the
/// cell: no amount is ever lost to an interleaved update.
pub fn deposit_dose(doses: &mut Vec<u128>, index: usize, t: ParticleType, transfer: u64)
    requires
        index < old(doses)@.len(),
    ensures
        final(doses)@.len() == old(doses)@.len(),
        final(doses)@[index as int] == spec_saturating_add_u128(
            old(doses)@[index as int] as int,
            spec_dose_weight(t, transfer),
        ),
        forall|j: int|
            0 <= j < old(doses)@.len() && j != index ==> final(doses)@[j] == old(doses)@[j],
{
    let w = dose_weight(t, transfer);
    let cur = doses[index];
    if cur > u128::MAX - w {
        doses[index] = u128::MAX;
    } else {
        doses[index] = cur + w;
    }
}

/// Dose cells accumulated one deposit at a time, oldest first.
pub open spec fn spec_accumulate(deposits: Seq<int>, start: int) -> int
    decreases deposits.len(),
{
    if deposits.len() == 0 {
        start
    } else {
        spec_saturating_add_u128(spec_accumulate(deposits.drop_last(), start), deposits.last())
    }
}

/// Dose conservation: as long as the accumulator does not overflow, a cell
/// that receives any sequence of non-negative deposits one at a time holds
/// exactly their sum — in particular, `n` deposits of a fixed quantum `q`
/// leave exactly `n * q` more dose, no matter how the depositing particles
/// were interleaved.
pub proof fn lemma_dose_conservation(deposits: Seq<int>, start: int)
    requires
        0 <= start,
        forall|i: int| 0 <= i < deposits.len() ==> 0 <= #[trigger] deposits[i],
        start + crate::math::sum_seq(deposits) <= u128::MAX,
    ensures
        spec_accumulate(deposits, start) == start + crate::math::sum_seq(deposits),
    decreases deposits.len(),
{
    if deposits.len() > 0 {
        lemma_dose_conservation(deposits.drop_last(), start);
    }
}

/// `n` equal deposits of a quantum `q` accumulate to exactly `n * q`.
pub proof fn lemma_uniform_deposits(deposits: Seq<int>, start: int, q: int)
    requires
        0 <= start,
        0 <= q,
        forall|i: int| 0 <= i < deposits.len() ==> #[trigger] deposits[i] == q,
        start + deposits.len() * q <= u128::MAX,
    ensures
        spec_accumulate(deposits, start) == start + deposits.len() * q,
{
    crate::math::lemma_sum_constant(deposits, q);
    lemma_dose_conservation(deposits, start);
}

/// The attenuation exponent of a photon sub-step, in ppm: the rate (in
/// millionths of 1/m) times the path length (in nm), which carries a
/// factor of 10^-15 m against the rate's 10^-6, scaled up by 10^6 into ppm.
pub open spec fn spec_attenuation_exponent(rate: u64, dist: u64) -> int {
    (rate as int) * (dist as int) / 1_000_000_000
}

/// The survival probability of a photon over one sub-step, in ppm:
/// `e^(-rate * dist)` through the fixed-point exponential, zero once the
/// exponent leaves its domain.
pub open spec fn spec_survival_ppm(rate: u64, dist: u64) -> int {
    let x = spec_attenuation_exponent(rate, dist);
    if x >= 0x100_0000 {
        0
    } else {
        spec_exp_neg(x as nat) as int
    }
}

/// Computes the survival probability of a photon sub-step.
pub fn survival_ppm(rate: u64, dist: u64) -> (r: u64)
    ensures
        r == spec_survival_ppm(rate, dist),
        r <= PPM,
{
    let x: u128 = mul_u64(rate, dist) / 1_000_000_000;
    if x >= 0x100_0000 {
        0
    } else {
        let p = crate::math::exp_neg(x as u64);
        assert((x as u64) as nat == x as nat);
        p
    }
}

/// The energy a charged particle loses over one sub-step: rate (eV/m)
/// times path length (nm) carries a factor of 10^-9 m against the energy
/// unit's 10^-3, so the quotient is 10^6; capped at the largest `u64`.
pub open spec fn spec_charged_transfer(rate: u64, dist: u64) -> int {
    crate::data_reading::spec_cap_u64((rate as int) * (dist as int) / 1_000_000)
}

/// Computes the energy loss of a charged sub-step.
pub fn charged_transfer(rate: u64, dist: u64) -> (r: u64)
    ensures
        r == spec_charged_transfer(rate, dist),
{
    let x: u128 = mul_u64(rate, dist) / 1_000_000;
    if x > u64::MAX as u128 {
        u64::MAX
    } else {
        x as u64
    }
}

/// One sub-step's interaction, as a function of the particle, the rate its
/// medium resolved to, the path length and the draw: the updated particle
/// and the energy transferred to the medium.
///
/// A photon survives exactly when the draw stays strictly below
/// `e^(-rate * dist)`; a draw at or above it absorbs the photon outright,
/// transferring its whole energy.  A charged particle continuously loses
/// `rate * dist`, floored at zero energy; its speed and velocity are scaled
/// down through the kinematics converters, keeping the direction.
pub open spec fn spec_apply_interaction(p: TrackedParticle, rate: u64, dist: u64, draw: u64) -> (
    TrackedParticle,
    u64,
) {
    if p.particle.particle_type is Gamma {
        if spec_survival_ppm(rate, dist) <= draw {
            (
                TrackedParticle {
                    particle: Particle { particle_type: p.particle.particle_type, energy: 0 },
                    position: p.position,
                    velocity: p.velocity,
                    speed: p.speed,
                },
                p.particle.energy,
            )
        } else {
            (p, 0u64)
        }
    } else {
        let rest = spec_rest_energy(p.particle.particle_type);
        let energy = crate::kinematics::spec_velocity_to_energy(p.speed as nat, rest);
        let transfer = spec_charged_transfer(rate, dist);
        let new_energy: nat = if transfer >= energy {
            0
        } else {
            (energy - transfer) as nat
        };
        let new_speed = crate::kinematics::spec_energy_to_velocity(new_energy, rest);
        (
            TrackedParticle {
                particle: p.particle,
                position: p.position,
                velocity: Vec3 {
                    x: spec_scaled_component(p.velocity.x as int, new_speed as u64, p.speed) as i64,
                    y: spec_scaled_component(p.velocity.y as int, new_speed as u64, p.speed) as i64,
                    z: spec_scaled_component(p.velocity.z as int, new_speed as u64, p.speed) as i64,
                },
                speed: new_speed as u64,
            },
            transfer as u64,
        )
    }
}

/// Applies one sub-step's interaction to a particle, given the rate its
/// medium resolved to, the path length, and one uniform draw.
pub fn apply_interaction(p: TrackedParticle, rate: u64, dist: u64, draw: u64) -> (r: (
    TrackedParticle,
    u64,
))
    requires
        p.speed_wf(),
        !p.spec_terminated(),
        draw < PPM,
    ensures
        r == spec_apply_interaction(p, rate, dist, draw),
        r.0.particle.particle_type == p.particle.particle_type,
        r.0.position == p.position,
        r.0.speed_wf(),
        p.particle.particle_type is Gamma ==> {
            let absorbed = spec_survival_ppm(rate, dist) <= draw;
            &&& r.1 == if absorbed {
                p.particle.energy
            } else {
                0u64
            }
            &&& r.0.particle.energy == p.particle.energy - r.1
            &&& r.0.speed == p.speed
            &&& r.0.velocity == p.velocity
        },
        !(p.particle.particle_type is Gamma) ==> {
            let energy = crate::kinematics::spec_velocity_to_energy(
                p.speed as nat,
                spec_rest_energy(p.particle.particle_type),
            );
            let transfer = spec_charged_transfer(rate, dist);
            let new_energy = if transfer >= energy {
                0
            } else {
                (energy - transfer) as nat
            };
            let new_speed = crate::kinematics::spec_energy_to_velocity(
                new_energy,
                spec_rest_energy(p.particle.particle_type),
            );
            &&& r.1 == transfer
            &&& r.0.speed == new_speed
            &&& r.0.particle.energy == p.particle.energy
            &&& r.0.velocity.x == spec_scaled_component(
                p.velocity.x as int,
                r.0.speed,
                p.speed,
            )
            &&& r.0.velocity.y == spec_scaled_component(
                p.velocity.y as int,
                r.0.speed,
                p.speed,
            )
            &&& r.0.velocity.z == spec_scaled_component(
                p.velocity.z as int,
                r.0.speed,
                p.speed,
            )
        },
{
    match p.particle.particle_type {
        ParticleType::Gamma => {
            let survival = survival_ppm(rate, dist);
            if survival <= draw {
                let transfer = p.particle.energy;
                let updated = TrackedParticle {
                    particle: Particle { particle_type: p.particle.particle_type, energy: 0 },
                    position: p.position,
                    velocity: p.velocity,
                    speed: p.speed,
                };
                (updated, transfer)
            } else {
                (p, 0)
            }
        },
        _ => {
            let energy = velocity_to_energy(p.speed, p.particle.particle_type);
            let transfer = charged_transfer(rate, dist);
            let new_energy: u64 = if transfer >= energy {
                0
            } else {
                energy - transfer
            };
            let new_speed = energy_to_velocity(new_energy, p.particle.particle_type);
            let velocity = Vec3 {
                x: scaled_component(p.velocity.x, new_speed, p.speed),
                y: scaled_component(p.velocity.y, new_speed, p.speed),
                z: scaled_component(p.velocity.z, new_speed, p.speed),
            };
            let updated = TrackedParticle {
                particle: p.particle,
                position: p.position,
                velocity,
                speed: new_speed,
            };
            (updated, transfer)
        },
    }
}

/// The displacement of one velocity component over a sub-step, in nm: the
/// component (m/s) times the interval (fs) carries 10^-15 m = 10^-6 nm.
pub open spec fn spec_displacement(v: int, t_fs: u64) -> int {
    if v >= 0 {
        v * (t_fs as int) / 1_000_000
    } else {
        -((-v) * (t_fs as int) / 1_000_000)
    }
}

/// Computes one displacement component.
pub fn displacement(v: i64, t_fs: u64) -> (r: i64)
    requires
        -(LIGHT_SPEED as int) <= v as int <= LIGHT_SPEED as int,
        t_fs <= crate::particle::MAX_TIME_STEP,
    ensures
        r == spec_displacement(v as int, t_fs),
{
    proof {
        let a = if v >= 0 {
            v as int
        } else {
            -(v as int)
        };
        assert(a * (t_fs as int) <= 299_792_458int * 1_000_000_000int && 0 <= a * (t_fs as int))
            by (nonlinear_arith)
            requires
                0 <= a <= 299_792_458int,
                0 <= t_fs as int <= 1_000_000_000int,
        ;
    }
    if v >= 0 {
        let d: u128 = (v as u128) * (t_fs as u128) / 1_000_000;
        d as i64
    } else {
        let mag: u64 = (-v) as u64;
        let d: u128 = (mag as u128) * (t_fs as u128) / 1_000_000;
        -(d as i64)
    }
}

/// The scalar path length of a sub-step, in nm.
pub open spec fn spec_path_length(speed: u64, t_fs: u64) -> int {
    (speed as int) * (t_fs as int) / 1_000_000
}

/// Computes the scalar path length of a sub-step.
pub fn path_length(speed: u64, t_fs: u64) -> (r: u64)
    requires
        speed <= LIGHT_SPEED,
        t_fs <= crate::particle::MAX_TIME_STEP,
    ensures
        r == spec_path_length(speed, t_fs),
{
    proof {
        assert((speed as int) * (t_fs as int) <= 299_792_458int * 1_000_000_000int)
            by (nonlinear_arith)
            requires
                0 <= speed as int <= 299_792_458int,
                0 <= t_fs as int <= 1_000_000_000int,
        ;
    }
    (mul_u64(speed, t_fs) / 1_000_000) as u64
}

/// The particle after the movement half of a sub-step: each position
/// coordinate advances by the displacement of its velocity component,
/// clamped to the representable space; nothing else changes.
pub open spec fn spec_moved(p: TrackedParticle, t_move: u64) -> TrackedParticle {
    TrackedParticle {
        particle: p.particle,
        position: Vec3 {
            x: spec_add_clamped(
                p.position.x as int,
                spec_displacement(p.velocity.x as int, t_move),
            ) as i64,
            y: spec_add_clamped(
                p.position.y as int,
                spec_displacement(p.velocity.y as int, t_move),
            ) as i64,
            z: spec_add_clamped(
                p.position.z as int,
                spec_displacement(p.velocity.z as int, t_move),
            ) as i64,
        },
        velocity: p.velocity,
        speed: p.speed,
    }
}

/// The mixture governing a position: that of the first volume containing
/// it, or the ambient mixture when no volume does.
pub open spec fn spec_medium_parts(
    objects: Seq<Object>,
    ambient: MaterialData,
    pos: Vec3,
) -> Seq<(u64, Substance)> {
    match spec_first_hit(objects, pos) {
        Some(h) => objects[h].material.parts@,
        None => ambient.parts@,
    }
}

/// One whole sub-step of the stepper as a function of the particle, the
/// scene and two draws: move the particle, resolve the medium at the new
/// position with the first draw, fetch the substance's curve for the
/// species, and apply the interaction with the second draw.  Without a
/// curve the sub-step only moves the particle: energy, speed and velocity
/// stay, and the transfer is zero.
pub open spec fn spec_substep(
    p: TrackedParticle,
    objects: Seq<Object>,
    ambient: MaterialData,
    data: SubstanceData,
    t_move: u64,
    substance_draw: u64,
    absorb_draw: u64,
) -> (TrackedParticle, u64) {
    let moved = spec_moved(p, t_move);
    let substance = spec_resolve(
        spec_medium_parts(objects, ambient, moved.position),
        substance_draw as int,
    );
    match spec_curve_for(substance.spec_curveset(data), p.particle.particle_type) {
        Some(curve) => {
            let energy = if p.particle.particle_type is Gamma {
                moved.particle.energy
            } else {
                spec_velocity_to_energy(
                    moved.speed as nat,
                    spec_rest_energy(p.particle.particle_type),
                ) as u64
            };
            let rate = spec_pick_rate(curve@, energy);
            let dist = spec_path_length(moved.speed, t_move) as u64;
            spec_apply_interaction(moved, rate, dist, absorb_draw)
        },
        None => (moved, 0u64),
    }
}

/// The dose cell one sub-step deposits into: the first volume containing
/// the moved particle, when there is one and the resolved substance has a
/// curve for the species.  The ambient medium and curveless sub-steps
/// deposit nowhere.
pub open spec fn spec_substep_target(
    p: TrackedParticle,
    objects: Seq<Object>,
    ambient: MaterialData,
    data: SubstanceData,
    t_move: u64,
    substance_draw: u64,
) -> Option<int> {
    let moved = spec_moved(p, t_move);
    let substance = spec_resolve(
        spec_medium_parts(objects, ambient, moved.position),
        substance_draw as int,
    );
    if spec_curve_for(substance.spec_curveset(data), p.particle.particle_type) is Some {
        spec_first_hit(objects, moved.position)
    } else {
        None
    }
}

/// The particle `pk` is reachable from `p0` by exactly `n` sub-steps of
/// the stepper under some sequence of draws.
pub open spec fn spec_stepped(
    p0: TrackedParticle,
    pk: TrackedParticle,
    n: nat,
    objects: Seq<Object>,
    ambient: MaterialData,
    data: SubstanceData,
    t_move: u64,
) -> bool
    decreases n,
{
    if n == 0 {
        pk == p0
    } else {
        exists|mid: TrackedParticle, sd: u64, ad: u64|
            sd < PPM && ad < PPM && spec_stepped(p0, mid, (n - 1) as nat, objects, ambient, data, t_move)
                && pk == (#[trigger] spec_substep(mid, objects, ambient, data, t_move, sd, ad)).0
    }
}

/// The particle is the result of stepping one of the given input particles
/// through exactly `n` sub-steps under some draws.
pub open spec fn spec_survivor_traced(
    survivor: TrackedParticle,
    inputs: Seq<TrackedParticle>,
    n: nat,
    objects: Seq<Object>,
    ambient: MaterialData,
    data: SubstanceData,
    t_move: u64,
) -> bool {
    exists|j: int|
        0 <= j < inputs.len() && spec_stepped(
            #[trigger] inputs[j],
            survivor,
            n,
            objects,
            ambient,
            data,
            t_move,
        )
}

/// Executes one sub-step of the stepper on one live particle, with the two
/// draws given: the update follows `spec_substep` exactly, and the
/// equivalent-dose-weighted transfer lands exactly in the cell that
/// `spec_substep_target` names — the first containing volume's — or
/// nowhere, when the particle is in the ambient medium or its substance
/// has no curve for the species.
pub fn transport_substep(
    p: TrackedParticle,
    objects: &Vec<Object>,
    ambient: &AmbientMaterial,
    t_move: u64,
    data: &SubstanceData,
    doses: &mut Vec<u128>,
    substance_draw: u64,
    absorb_draw: u64,
) -> (r: TrackedParticle)
    requires
        p.speed_wf(),
        !p.spec_terminated(),
        substance_draw < PPM,
        absorb_draw < PPM,
        t_move <= crate::particle::MAX_TIME_STEP,
        data.spec_wf(),
        ambient.material.wf(*data),
        forall|i: int| 0 <= i < objects@.len() ==> (#[trigger] objects@[i]).wf(*data),
        old(doses)@.len() == objects@.len(),
    ensures
        r == spec_substep(
            p,
            objects@,
            ambient.material,
            *data,
            t_move,
            substance_draw,
            absorb_draw,
        ).0,
        r.speed_wf(),
        r.particle.particle_type == p.particle.particle_type,
        final(doses)@.len() == old(doses)@.len(),
        ({
            let transfer = spec_substep(
                p,
                objects@,
                ambient.material,
                *data,
                t_move,
                substance_draw,
                absorb_draw,
            ).1;
            match spec_substep_target(
                p,
                objects@,
                ambient.material,
                *data,
                t_move,
                substance_draw,
            ) {
                Some(h) => 0 <= h < old(doses)@.len() && final(doses)@[h]
                    == spec_saturating_add_u128(
                    old(doses)@[h] as int,
                    spec_dose_weight(p.particle.particle_type, transfer),
                ) && (forall|j: int|
                    0 <= j < old(doses)@.len() && j != h ==> final(doses)@[j] == old(doses)@[j]),
                None => final(doses)@ == old(doses)@,
            }
        }),
{
    // move the particle
    let dx = displacement(p.velocity.x, t_move);
    let dy = displacement(p.velocity.y, t_move);
    let dz = displacement(p.velocity.z, t_move);
    let moved = TrackedParticle {
        particle: p.particle,
        position: Vec3 {
            x: add_clamped(p.position.x, dx),
            y: add_clamped(p.position.y, dy),
            z: add_clamped(p.position.z, dz),
        },
        velocity: p.velocity,
        speed: p.speed,
    };
    assert(moved == spec_moved(p, t_move));
    // resolve the medium
    let hit = first_hit(objects, moved.position);
    let mixture = match hit {
        Some(h) => &objects[h].material,
        None => &ambient.material,
    };
    assert(mixture.parts@ == spec_medium_parts(objects@, ambient.material, moved.position));
    let substance = mixture.resolve(substance_draw);
    proof {
        lemma_resolve_in_parts(mixture.parts@, substance_draw as int);
    }
    assert(substance.spec_wf(*data));
    // fetch the curve and apply the interaction
    match substance.stopping_powers(data, moved.particle.particle_type) {
        Some(curve) => {
            proof {
                match substance {
                    Substance::Element { element, .. } => {
                        assert(spec_element_wf(data.elements@[element as int]));
                    },
                    Substance::Compound { compound, .. } => {
                        assert(spec_compound_wf(data.compounds@[compound as int]));
                    },
                }
                assert(spec_curve_wf(curve@));
            }
            let energy = match moved.particle.particle_type {
                ParticleType::Gamma => moved.particle.energy,
                _ => velocity_to_energy(moved.speed, moved.particle.particle_type),
            };
            let rate = pick_stopping_power(curve, energy);
            let dist = path_length(moved.speed, t_move);
            let (updated, transfer) = apply_interaction(moved, rate, dist, absorb_draw);
            match hit {
                Some(h) => {
                    deposit_dose(doses, h, moved.particle.particle_type, transfer);
                },
                None => {},
            }
            updated
        },
        None => moved,
    }
}

/// Every object keeps its geometry and composition; only its accumulated
/// dose may have grown.
pub open spec fn spec_objects_preserved(before: Seq<Object>, after: Seq<Object>) -> bool {
    &&& after.len() == before.len()
    &&& forall|i: int|
        0 <= i < before.len() ==> {
            &&& (#[trigger] after[i]).position == before[i].position
            &&& after[i].extents == before[i].extents
            &&& after[i].material == before[i].material
            &&& after[i].absorbed_energy >= before[i].absorbed_energy
        }
}

/// Advances every live particle through the tick's sub-steps, each one a
/// `transport_substep`: move, resolve the medium at the new position (the
/// first containing volume, or the ambient mixture), fetch the substance's
/// curve for the species (no curve: the sub-step only moves the particle),
/// apply the interaction, and add the equivalent-dose-weighted transfer to
/// the hit volume's cell.  A particle is removed once it crosses a
/// termination threshold; every survivor is the image of one input
/// particle under exactly `multi_step` sub-steps for some draws.  Dose is
/// gathered in per-volume cells and flushed into the volumes once, after
/// all particles.  A halted clock changes nothing.
pub fn process_particles(
    particles: &mut Vec<TrackedParticle>,
    objects: &mut Vec<Object>,
    ambient: &AmbientMaterial,
    time_data: &TimeData,
    data: &SubstanceData,
)
    requires
        time_data.wf(),
        data.spec_wf(),
        ambient.material.wf(*data),
        forall|i: int| 0 <= i < old(objects)@.len() ==> (#[trigger] old(objects)@[i]).wf(*data),
        forall|i: int|
            0 <= i < old(particles)@.len() ==> (#[trigger] old(particles)@[i]).speed_wf() && !old(
                particles,
            )@[i].spec_terminated(),
    ensures
        time_data.halted ==> final(particles)@ == old(particles)@ && final(objects)@ == old(
            objects,
        )@,
        forall|i: int|
            0 <= i < final(particles)@.len() ==> (#[trigger] final(particles)@[i]).speed_wf()
                && !final(particles)@[i].spec_terminated(),
        final(particles)@.len() <= old(particles)@.len(),
        time_data.multi_step == 0 ==> final(particles)@ == old(particles)@,
        !time_data.halted ==> forall|i: int|
            0 <= i < final(particles)@.len() ==> spec_survivor_traced(
                #[trigger] final(particles)@[i],
                old(particles)@,
                time_data.multi_step as nat,
                old(objects)@,
                ambient.material,
                *data,
                time_data.time_step_move,
            ),
        spec_objects_preserved(old(objects)@, final(objects)@),
{
    if time_data.halted {
        return ;
    }
    let ghost objects0 = objects@;
    let n_obj = objects.len();
    let mut doses: Vec<u128> = Vec::new();
    let mut di: usize = 0;
    while di < n_obj
        invariant
            doses@.len() == di <= n_obj,
        decreases n_obj - di,
    {
        doses.push(0);
        di = di + 1;
    }
    let n_par = particles.len();
    let mut survivors: Vec<TrackedParticle> = Vec::new();
    let mut pi: usize = 0;
    while pi < n_par
        invariant
            0 <= pi <= n_par,
            n_par == particles@.len(),
            objects@ == objects0,
            n_obj == objects@.len(),
            doses@.len() == n_obj,
            time_data.wf(),
            data.spec_wf(),
            ambient.material.wf(*data),
            forall|i: int| 0 <= i < objects@.len() ==> (#[trigger] objects@[i]).wf(*data),
            forall|i: int|
                0 <= i < particles@.len() ==> (#[trigger] particles@[i]).speed_wf()
                    && !particles@[i].spec_terminated(),
            forall|i: int|
                0 <= i < survivors@.len() ==> (#[trigger] survivors@[i]).speed_wf()
                    && !survivors@[i].spec_terminated(),
            forall|i: int|
                0 <= i < survivors@.len() ==> spec_survivor_traced(
                    #[trigger] survivors@[i],
                    particles@,
                    time_data.multi_step as nat,
                    objects0,
                    ambient.material,
                    *data,
                    time_data.time_step_move,
                ),
            survivors@.len() <= pi,
            time_data.multi_step == 0 ==> survivors@ == particles@.subrange(0, pi as int),
        decreases n_par - pi,
    {
        let mut p = particles[pi];
        let ghost p0 = p;
        let mut alive = true;
        let mut step: usize = 0;
        while step < time_data.multi_step
            invariant
                step <= time_data.multi_step,
                step == 0 ==> p == p0 && alive,
                objects@ == objects0,
                n_obj == objects@.len(),
                doses@.len() == n_obj,
                time_data.wf(),
                data.spec_wf(),
                ambient.material.wf(*data),
                forall|i: int| 0 <= i < objects@.len() ==> (#[trigger] objects@[i]).wf(*data),
                p.speed_wf(),
                alive ==> !p.spec_terminated(),
                alive ==> spec_stepped(
                    p0,
                    p,
                    step as nat,
                    objects0,
                    ambient.material,
                    *data,
                    time_data.time_step_move,
                ),
            decreases time_data.multi_step - step,
        {
            if !alive {
                step = step + 1;
                continue ;
            }
            let substance_draw = rand_below(PPM);
            let absorb_draw = rand_below(PPM);
            let ghost p_prev = p;
            p = transport_substep(
                p,
                objects,
                ambient,
                time_data.time_step_move,
                data,
                &mut doses,
                substance_draw,
                absorb_draw,
            );
            proof {
                assert(spec_stepped(
                    p0,
                    p,
                    (step + 1) as nat,
                    objects0,
                    ambient.material,
                    *data,
                    time_data.time_step_move,
                )) by {
                    assert(substance_draw < PPM && absorb_draw < PPM && spec_stepped(
                        p0,
                        p_prev,
                        step as nat,
                        objects0,
                        ambient.material,
                        *data,
                        time_data.time_step_move,
                    ) && p == spec_substep(
                        p_prev,
                        objects0,
                        ambient.material,
                        *data,
                        time_data.time_step_move,
                        substance_draw,
                        absorb_draw,
                    ).0);
                }
            }
            // termination
            if p.terminated() {
                alive = false;
            }
            step = step + 1;
        }
        if alive {
            let ghost prev_survivors = survivors@;
            survivors.push(p);
            proof {
                assert forall|i: int|
                    0 <= i < survivors@.len() implies spec_survivor_traced(
                        #[trigger] survivors@[i],
                        particles@,
                        time_data.multi_step as nat,
                        objects0,
                        ambient.material,
                        *data,
                        time_data.time_step_move,
                    ) by {
                    assert(survivors@ == prev_survivors.push(p));
                    if i < prev_survivors.len() {
                        assert(survivors@[i] == prev_survivors[i]);
                    } else {
                        assert(survivors@[i] == p);
                        assert(spec_stepped(
                            particles@[pi as int],
                            p,
                            time_data.multi_step as nat,
                            objects0,
                            ambient.material,
                            *data,
                            time_data.time_step_move,
                        ));
                    }
                }
            }
        }
        proof {
            if time_data.multi_step == 0 {
                assert(particles@.subrange(0, pi + 1 as int).drop_last() =~= particles@.subrange(
                    0,
                    pi as int,
                ));
                assert(survivors@ =~= particles@.subrange(0, pi + 1 as int));
            }
        }
        pi = pi + 1;
    }
    proof {
        assert(particles@.subrange(0, n_par as int) =~= particles@);
    }
    let ghost survivors_snap = survivors@;
    let ghost inputs_snap = particles@;
    *particles = survivors;
    proof {
        assert(inputs_snap == old(particles)@);
        assert forall|i: int|
            0 <= i < particles@.len() implies spec_survivor_traced(
                #[trigger] particles@[i],
                old(particles)@,
                time_data.multi_step as nat,
                objects0,
                ambient.material,
                *data,
                time_data.time_step_move,
            ) by {
            assert(particles@[i] == survivors_snap[i]);
            assert(spec_survivor_traced(
                survivors_snap[i],
                inputs_snap,
                time_data.multi_step as nat,
                objects0,
                ambient.material,
                *data,
                time_data.time_step_move,
            ));
        }
    }
    // flush the gathered dose into the volumes
    let mut k: usize = 0;
    while k < n_obj
        invariant
            0 <= k <= n_obj,
            objects@.len() == n_obj,
            doses@.len() == n_obj,
            forall|i: int|
                k <= i < n_obj ==> #[trigger] objects@[i] == objects0[i],
            forall|i: int|
                0 <= i < k ==> {
                    &&& (#[trigger] objects@[i]).position == objects0[i].position
                    &&& objects@[i].extents == objects0[i].extents
                    &&& objects@[i].material == objects0[i].material
                    &&& objects@[i].absorbed_energy >= objects0[i].absorbed_energy
                },
            objects0.len() == n_obj,
        decreases n_obj - k,
    {
        let add = doses[k];
        let cur = objects[k].absorbed_energy;
        if cur > u128::MAX - add {
            objects[k].absorbed_energy = u128::MAX;
        } else {
            objects[k].absorbed_energy = cur + add;
        }
        k = k + 1;
    }
}

/// The per-tick stream handed to a presentation layer: the position and
/// species of every live particle, in order.
pub fn presentation_stream(particles: &Vec<TrackedParticle>) -> (r: Vec<(Vec3, ParticleType)>)
    ensures
        r@.len() == particles@.len(),
        forall|i: int|
            0 <= i < particles@.len() ==> #[trigger] r@[i] == (
                particles@[i].position,
                particles@[i].particle.particle_type,
            ),
{
    let mut out: Vec<(Vec3, ParticleType)> = Vec::new();
    let n = particles.len();
    let mut i: usize = 0;
    while i < n
        invariant
            0 <= i <= n,
            n == particles@.len(),
            out@.len() == i,
            forall|j: int|
                0 <= j < i ==> #[trigger] out@[j] == (
                    particles@[j].position,
                    particles@[j].particle.particle_type,
                ),
        decreases n - i,
    {
        let p = &particles[i];
        out.push((p.position, p.particle.particle_type));
        i = i + 1;
    }
    out
}

/// Clears every live particle and zeroes every volume's accumulated dose;
/// geometry and composition stay.
pub fn reset_particles(particles: &mut Vec<TrackedParticle>, objects: &mut Vec<Object>)
    ensures
        final(particles)@.len() == 0,
        final(objects)@.len() == old(objects)@.len(),
        forall|i: int|
            0 <= i < old(objects)@.len() ==> {
                &&& (#[trigger] final(objects)@[i]).position == old(objects)@[i].position
                &&& final(objects)@[i].extents == old(objects)@[i].extents
                &&& final(objects)@[i].material == old(objects)@[i].material
                &&& final(objects)@[i].absorbed_energy == 0
            },
{
    particles.clear();
    let ghost objects0 = objects@;
    let n = objects.len();
    let mut k: usize = 0;
    while k < n
        invariant
            0 <= k <= n,
            objects@.len() == n,
            objects0.len() == n,
            forall|i: int| k <= i < n ==> #[trigger] objects@[i] == objects0[i],
            forall|i: int|
                0 <= i < k ==> {
                    &&& (#[trigger] objects@[i]).position == objects0[i].position
                    &&& objects@[i].extents == objects0[i].extents
                    &&& objects@[i].material == objects0[i].material
                    &&& objects@[i].absorbed_energy == 0
                },
        decreases n - k,
    {
        objects[k].absorbed_energy = 0;
        k = k + 1;
    }
}

/// One full simulation tick: samples the decays of every volume into new
/// particles, advances every live particle, and accounts the elapsed time.
/// While the clock is halted, nothing advances and no time passes.
pub fn run_tick(
    particles: &mut Vec<TrackedParticle>,
    objects: &mut Vec<Object>,
    ambient: &AmbientMaterial,
    time_data: &mut TimeData,
    data: &SubstanceData,
) -> (r: Result<(), crate::sampler::SourceDataError>)
    requires
        old(time_data).wf(),
        data.spec_wf(),
        ambient.material.wf(*data),
        forall|i: int| 0 <= i < old(objects)@.len() ==> (#[trigger] old(objects)@[i]).wf(*data),
        forall|i: int|
            0 <= i < old(particles)@.len() ==> (#[trigger] old(particles)@[i]).speed_wf() && !old(
                particles,
            )@[i].spec_terminated(),
    ensures
        final(time_data).wf(),
        final(time_data).time_step_calc == old(time_data).time_step_calc,
        final(time_data).time_step_move == old(time_data).time_step_move,
        final(time_data).multi_step == old(time_data).multi_step,
        final(time_data).halted == old(time_data).halted,
        old(time_data).halted ==> final(particles)@ == old(particles)@ && final(objects)@ == old(
            objects,
        )@ && *final(time_data) == *old(time_data),
        !old(time_data).halted && r is Ok ==> final(time_data).time_passed
            == spec_saturating_add_u64(
            old(time_data).time_passed as int,
            old(time_data).time_step_calc * old(time_data).multi_step,
        ),
        r is Err ==> final(particles)@ == old(particles)@ && final(objects)@ == old(objects)@
            && *final(time_data) == *old(time_data),
        r is Ok ==> forall|i: int|
            0 <= i < final(particles)@.len() ==> (#[trigger] final(particles)@[i]).speed_wf()
                && !final(particles)@[i].spec_terminated(),
        spec_objects_preserved(old(objects)@, final(objects)@),
        crate::sampler::spec_sources_ok(old(objects)@, *data) ==> r is Ok,
        !old(time_data).halted && (exists|oi: int|
            0 <= oi < old(objects)@.len() && crate::sampler::spec_certain_fault(
                #[trigger] old(objects)@[oi],
                *data,
            )) ==> r is Err,
{
    if time_data.halted {
        return Ok(());
    }
    let spawned = match crate::sampler::spawn_object_particles(objects, time_data, data) {
        Ok(ps) => ps,
        Err(e) => {
            return Err(e);
        },
    };
    let mut si: usize = 0;
    let n_new = spawned.len();
    while si < n_new
        invariant
            0 <= si <= n_new,
            n_new == spawned@.len(),
            forall|i: int| 0 <= i < spawned@.len() ==> crate::sampler::spec_spawned(
                #[trigger] spawned@[i],
            ),
            forall|i: int|
                0 <= i < particles@.len() ==> (#[trigger] particles@[i]).speed_wf()
                    && !particles@[i].spec_terminated(),
        decreases n_new - si,
    {
        let p = spawned[si];
        if !p.terminated() {
            particles.push(p);
        }
        si = si + 1;
    }
    process_particles(particles, objects, ambient, time_data, data);
    crate::particle::tick_time(time_data);
    Ok(())
}

} // verus!
