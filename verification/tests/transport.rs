use radiation_sim::constants::{LIGHT_SPEED, PPM};
use radiation_sim::data_reading::{CurveSet, Element, Substance, SubstanceData};
use radiation_sim::kinematics::{energy_to_velocity, velocity_to_energy};
use radiation_sim::material::MaterialData;
use radiation_sim::particle::{
    AmbientMaterial, Extent3, Object, Particle, ParticleType, TimeData, TrackedParticle, Vec3,
};
use radiation_sim::transport::{
    apply_interaction, charged_transfer, contains, deposit_dose, first_hit,
    presentation_stream, process_particles, reset_particles, survival_ppm, transport_substep,
};

fn dense_element(rate: u64) -> Element {
    Element {
        z: 1,
        symbol: "D".to_owned(),
        name: "Dense".to_owned(),
        nucleon_ratio: 0,
        energy: 0,
        density: 1_000_000_000,
        isotopes: vec![],
        stopping_powers: CurveSet {
            alpha: Some(vec![(1, rate)]),
            electron: Some(vec![(1, rate)]),
            gamma: Some(vec![(1, rate)]),
        },
        is_absorber: true,
    }
}

fn dense_catalog(rate: u64) -> SubstanceData {
    SubstanceData {
        elements: vec![dense_element(rate)],
        compounds: vec![],
        radiators: vec![],
        absorbers: vec![],
    }
}

fn dense_mixture() -> MaterialData {
    MaterialData { parts: vec![(PPM, Substance::Element { element: 0, isotope: 0 })] }
}

fn metre_cube_at_origin() -> Object {
    Object {
        position: Vec3 { x: 0, y: 0, z: 0 },
        extents: Extent3::new(1_000_000_000, 1_000_000_000, 1_000_000_000),
        material: dense_mixture(),
        absorbed_energy: 0,
    }
}

fn slow_alpha() -> TrackedParticle {
    let speed = energy_to_velocity(1_000_000, ParticleType::Alpha);
    TrackedParticle {
        particle: Particle { particle_type: ParticleType::Alpha, energy: 1000 },
        position: Vec3 { x: 0, y: 0, z: 0 },
        velocity: Vec3 { x: speed as i64, y: 0, z: 0 },
        speed,
    }
}

/// Termination: a charged particle driven below the termination speed is
/// removed and no longer appears in the live-particle enumeration.
#[test]
fn termination_removes_particle() {
    fastrand::seed(3);
    let data = dense_catalog(1_000_000_000_000_000);
    let mut objects = vec![metre_cube_at_origin()];
    let ambient = AmbientMaterial { material: dense_mixture() };
    let time_data = TimeData::start();
    let mut particles = vec![slow_alpha()];
    process_particles(&mut particles, &mut objects, &ambient, &time_data, &data);
    assert!(particles.is_empty());
    // and it stays gone on later ticks
    process_particles(&mut particles, &mut objects, &ambient, &time_data, &data);
    assert!(particles.is_empty());
    // its energy was deposited, weighted twentyfold for an alpha
    assert!(objects[0].absorbed_energy > 0);
}

/// A halted clock changes neither the particles nor the volumes.
#[test]
fn halted_stepper_is_inert() {
    fastrand::seed(4);
    let data = dense_catalog(1_000_000_000_000_000);
    let mut objects = vec![metre_cube_at_origin()];
    let ambient = AmbientMaterial { material: dense_mixture() };
    let mut time_data = TimeData::start();
    time_data.halted = true;
    let mut particles = vec![slow_alpha()];
    let before = particles[0];
    process_particles(&mut particles, &mut objects, &ambient, &time_data, &data);
    assert_eq!(particles.len(), 1);
    assert_eq!(particles[0], before);
    assert_eq!(objects[0].absorbed_energy, 0);
}

/// A particle in a medium without a curve for its species passes through
/// unaffected.
#[test]
fn no_curve_is_transparent() {
    fastrand::seed(5);
    let mut element = dense_element(1_000_000_000_000_000);
    element.stopping_powers.alpha = None;
    let data = SubstanceData {
        elements: vec![element],
        compounds: vec![],
        radiators: vec![],
        absorbers: vec![],
    };
    let mut objects = vec![metre_cube_at_origin()];
    let ambient = AmbientMaterial { material: dense_mixture() };
    let time_data = TimeData::start();
    let p = slow_alpha();
    let mut particles = vec![p];
    process_particles(&mut particles, &mut objects, &ambient, &time_data, &data);
    assert_eq!(particles.len(), 1);
    assert_eq!(particles[0].speed, p.speed);
    assert_eq!(objects[0].absorbed_energy, 0);
    // it moved 16 sub-steps along x
    assert!(particles[0].position.x > p.position.x);
}

/// Dose conservation: interleaved deposits from simulated parallel workers
/// into one shared cell lose nothing; the total is exactly N times the
/// quantum.
#[test]
fn dose_conservation_under_interleaving() {
    let mut doses: Vec<u128> = vec![0, 0];
    let n = 5_000u64;
    let quantum = 7u64;
    for _ in 0..n {
        // two workers alternating on the same cell, one more on another
        deposit_dose(&mut doses, 0, ParticleType::Electron, quantum);
        deposit_dose(&mut doses, 1, ParticleType::Electron, 1);
        deposit_dose(&mut doses, 0, ParticleType::Electron, quantum);
    }
    assert_eq!(doses[0], (2 * n * quantum) as u128);
    assert_eq!(doses[1], n as u128);
}

/// Alpha deposits are weighted twentyfold into equivalent dose.
#[test]
fn alpha_dose_weighting() {
    let mut doses: Vec<u128> = vec![0];
    deposit_dose(&mut doses, 0, ParticleType::Alpha, 10);
    deposit_dose(&mut doses, 0, ParticleType::Gamma, 10);
    assert_eq!(doses[0], 200 + 10);
}

/// Photon absorption probability: with rate * distance = 0.5 the survival
/// probability is e^(-0.5), and the empirical absorption fraction over
/// uniform draws converges to 1 - e^(-0.5).
#[test]
fn photon_absorption_probability() {
    let rate = 500_000_000u64;  // 500 per metre, in millionths of 1/m
    let dist = 1_000_000u64;  // one millimetre in nm
    let survival = survival_ppm(rate, dist);
    let expected = (1_000_000.0 * (-0.5f64).exp()).round() as i64;
    assert!((survival as i64 - expected).abs() <= 20, "survival {}", survival);

    let photon = TrackedParticle {
        particle: Particle { particle_type: ParticleType::Gamma, energy: 1_000_000 },
        position: Vec3 { x: 0, y: 0, z: 0 },
        velocity: Vec3 { x: LIGHT_SPEED as i64, y: 0, z: 0 },
        speed: LIGHT_SPEED,
    };
    fastrand::seed(11);
    let n = 100_000u64;
    let mut absorbed = 0u64;
    for _ in 0..n {
        let draw = fastrand::u64(0..1_000_000);
        let (after, transfer) = apply_interaction(photon, rate, dist, draw);
        if transfer > 0 {
            absorbed += 1;
            assert_eq!(transfer, 1_000_000);
            assert_eq!(after.particle.energy, 0);
        } else {
            assert_eq!(after.particle.energy, 1_000_000);
        }
    }
    let fraction = absorbed as f64 / n as f64;
    let expected_fraction = 1.0 - (-0.5f64).exp();
    assert!(
        (fraction - expected_fraction).abs() < 0.008,
        "fraction {} expected {}",
        fraction,
        expected_fraction
    );
}

/// The absorption decision boundary is exact: the photon survives only
/// while the draw stays strictly below the survival probability; a draw at
/// it already absorbs.
#[test]
fn photon_absorption_boundary() {
    let rate = 500_000_000u64;
    let dist = 1_000_000u64;
    let survival = survival_ppm(rate, dist);
    assert!(survival >= 1);
    let photon = TrackedParticle {
        particle: Particle { particle_type: ParticleType::Gamma, energy: 42 },
        position: Vec3 { x: 0, y: 0, z: 0 },
        velocity: Vec3 { x: LIGHT_SPEED as i64, y: 0, z: 0 },
        speed: LIGHT_SPEED,
    };
    let (_, t1) = apply_interaction(photon, rate, dist, survival - 1);
    assert_eq!(t1, 0);
    let (_, t2) = apply_interaction(photon, rate, dist, survival);
    assert_eq!(t2, 42);
}

/// The continuous slowing-down formula is exact: rate times path length,
/// with the unit factor of a million, and the particle's speed drops
/// accordingly.
#[test]
fn charged_energy_loss_exact() {
    // 2e9 eV/m over 3e5 nm: 2e9 * 3e5 / 1e6 = 6e8 meV
    assert_eq!(charged_transfer(2_000_000_000, 300_000), 600_000_000);
    assert_eq!(charged_transfer(0, 300_000), 0);

    let p = slow_alpha();
    let energy = velocity_to_energy(p.speed, ParticleType::Alpha);
    let rate = 1_000_000u64;  // eV/m
    let dist = 200_000u64;  // nm
    let transfer = charged_transfer(rate, dist);
    assert!(0 < transfer && transfer < energy);
    let (after, reported) = apply_interaction(p, rate, dist, 0);
    assert_eq!(reported, transfer);
    let remaining = energy_to_velocity(energy - transfer, ParticleType::Alpha);
    assert_eq!(after.speed, remaining);
    assert!(after.speed < p.speed);
}

/// The bounds test is inclusive at the lower face and exclusive at the
/// upper one, on every axis.
#[test]
fn bounds_test_inclusive_exclusive() {
    let o = Object {
        position: Vec3 { x: 0, y: 0, z: 0 },
        extents: Extent3::new(10, 10, 10),
        material: dense_mixture(),
        absorbed_energy: 0,
    };
    assert!(contains(&o, Vec3 { x: -5, y: 0, z: 0 }));
    assert!(!contains(&o, Vec3 { x: 5, y: 0, z: 0 }));
    assert!(contains(&o, Vec3 { x: 4, y: -5, z: 4 }));
    assert!(!contains(&o, Vec3 { x: 0, y: 0, z: 5 }));
    assert!(!contains(&o, Vec3 { x: -6, y: 0, z: 0 }));
}

/// Ties between overlapping volumes go to the first in iteration order.
#[test]
fn first_matching_volume_wins() {
    let a = metre_cube_at_origin();
    let b = metre_cube_at_origin();
    let objects = vec![a, b];
    let hit = first_hit(&objects, Vec3 { x: 1, y: 2, z: 3 });
    assert_eq!(hit, Some(0));
    let miss = first_hit(&objects, Vec3 { x: 2_000_000_000, y: 0, z: 0 });
    assert_eq!(miss, None);
}

/// One sub-step deposits into the first volume containing the moved
/// particle, and only there; a sub-step in the ambient medium deposits
/// nowhere.
#[test]
fn substep_deposits_to_first_containing_volume() {
    let data = dense_catalog(1_000_000_000);
    let ambient = AmbientMaterial { material: dense_mixture() };
    let mut far_cube = metre_cube_at_origin();
    far_cube.position = Vec3 { x: 100_000_000_000, y: 0, z: 0 };
    // the particle sits in the second volume, not the first
    let objects = vec![far_cube, metre_cube_at_origin()];
    let mut doses: Vec<u128> = vec![0, 0];
    let p = slow_alpha();
    let after = transport_substep(p, &objects, &ambient, 1_000, &data, &mut doses, 0, 0);
    assert_eq!(doses[0], 0);
    assert!(doses[1] > 0);
    assert!(after.position.x > p.position.x);
    assert!(after.speed < p.speed);

    // out in the ambient medium nothing is deposited, though energy is lost
    let mut lonely = p;
    lonely.position = Vec3 { x: -50_000_000_000, y: 0, z: 0 };
    let mut doses2: Vec<u128> = vec![0, 0];
    let after2 = transport_substep(lonely, &objects, &ambient, 1_000, &data, &mut doses2, 0, 0);
    assert_eq!(doses2, vec![0, 0]);
    assert!(after2.speed < lonely.speed);
}

/// The presentation stream carries position and species of every live
/// particle, in order.
#[test]
fn presentation_stream_contents() {
    let a = slow_alpha();
    let mut b = slow_alpha();
    b.particle.particle_type = ParticleType::Electron;
    b.position = Vec3 { x: 7, y: 8, z: 9 };
    let particles = vec![a, b];
    let stream = presentation_stream(&particles);
    assert_eq!(stream.len(), 2);
    assert_eq!(stream[0], (a.position, ParticleType::Alpha));
    assert_eq!(stream[1], (Vec3 { x: 7, y: 8, z: 9 }, ParticleType::Electron));
}

/// Resetting clears the live particles and zeroes every dose accumulator.
#[test]
fn reset_clears_particles_and_dose() {
    let mut particles = vec![slow_alpha(), slow_alpha()];
    let mut objects = vec![metre_cube_at_origin()];
    objects[0].absorbed_energy = 12345;
    reset_particles(&mut particles, &mut objects);
    assert!(particles.is_empty());
    assert_eq!(objects[0].absorbed_energy, 0);
    assert_eq!(objects[0].extents, Extent3::new(1_000_000_000, 1_000_000_000, 1_000_000_000));
}
