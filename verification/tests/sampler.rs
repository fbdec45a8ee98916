use radiation_sim::data_reading::{classify_decay, DecayType};
use radiation_sim::particle::{Extent3, LinearSpawner, ParticleType, TimeData, Vec3};
use radiation_sim::sampler::{
    decay_count, direction_velocity, expected_decays, spawn_linear_particles,
};

/// Stochastic rounding: with an expected count of 0.3 per tick, the mean
/// over many uniformly drawn ticks converges to 0.3.
#[test]
fn stochastic_rounding_unbiased() {
    fastrand::seed(7);
    let n = 100_000u64;
    let mut total = 0u64;
    for _ in 0..n {
        let draw = fastrand::u64(0..1_000_000);
        total += decay_count(300_000, draw);
    }
    let mean = total as f64 / n as f64;
    assert!((mean - 0.3).abs() < 0.01, "mean {}", mean);
}

/// Exact decay-count behaviour for whole and fractional expectations.
#[test]
fn decay_count_exact() {
    // a whole expectation never rounds up
    assert_eq!(decay_count(2_000_000, 0), 2);
    assert_eq!(decay_count(2_000_000, 999_999), 2);
    // a fractional expectation rounds up exactly when the fraction
    // exceeds the draw
    assert_eq!(decay_count(2_300_000, 0), 3);
    assert_eq!(decay_count(2_300_000, 299_999), 3);
    assert_eq!(decay_count(2_300_000, 300_000), 2);
    assert_eq!(decay_count(2_300_000, 999_999), 2);
    // below one decay per tick
    assert_eq!(decay_count(300_000, 100_000), 1);
    assert_eq!(decay_count(300_000, 800_000), 0);
}

/// Decay classification: alpha stays alpha, the electron-emitting classes
/// collapse to the electron, anything else is rejected.
#[test]
fn decay_classification() {
    assert_eq!(classify_decay(DecayType::Alpha), Some(ParticleType::Alpha));
    assert_eq!(classify_decay(DecayType::BetaMinus), Some(ParticleType::Electron));
    assert_eq!(classify_decay(DecayType::BetaPlus), Some(ParticleType::Electron));
    assert_eq!(classify_decay(DecayType::BetaElectronCapture), Some(ParticleType::Electron));
    assert_eq!(classify_decay(DecayType::Other), None);
}

/// The staged fixed-point expected-decay formula on a concrete volume:
/// activity 10^15 Bq/kg, density 10^9 mg/m^3 (water), a one-metre cube,
/// a 10 ps tick.
#[test]
fn expected_decays_concrete() {
    let extents = Extent3::new(1_000_000_000, 1_000_000_000, 1_000_000_000);
    let e = expected_decays(1_000_000_000_000_000, 1_000_000_000, extents, 10_000);
    assert_eq!(e, 10_000_000_000_000);
}

/// A zero tick interval, zero density or zero volume expects no decays.
#[test]
fn expected_decays_zero_cases() {
    let extents = Extent3::new(1_000_000_000, 1_000_000_000, 1_000_000_000);
    assert_eq!(expected_decays(1_000_000_000_000_000, 1_000_000_000, extents, 0), 0);
    assert_eq!(expected_decays(1_000_000_000_000_000, 0, extents, 10_000), 0);
    let flat = Extent3::new(1_000_000_000, 0, 1_000_000_000);
    assert_eq!(expected_decays(1_000_000_000_000_000, 1_000_000_000, flat, 10_000), 0);
}

/// The directed test source emits a whole number of particles per species
/// and sub-step when its expectation has no fractional part, all leaving
/// the source's x face.
#[test]
fn linear_source_deterministic_count() {
    fastrand::seed(31);
    let spawner = LinearSpawner {
        alpha_rate: 200_000_000_000,
        beta_rate: 200_000_000_000,
        gamma_rate: 200_000_000_000,
        particle_energy: 100_000_000,
    };
    let position = Vec3 { x: 1000, y: 0, z: 0 };
    let extents = Extent3::new(2000, 100, 100);
    let time_data = TimeData::start();
    // rate * tick interval: 2e11 per second over the 10 ps
    // tick gives exactly 2.0 expected decays per sub-step and species
    let particles = spawn_linear_particles(position, extents, &spawner, &time_data);
    assert_eq!(particles.len(), 96);
    for p in &particles {
        // emitted from the +x face, with the offset inside the extents
        assert_eq!(p.position.x, 1000 + 1000);
        assert!(p.position.y.abs() <= 100);
        match p.particle.particle_type {
            ParticleType::Gamma => {
                assert_eq!(p.particle.energy, 100_000_000);
            }
            _ => {
                assert_eq!(p.particle.energy, 1000);
                assert_eq!(p.velocity.x, p.speed as i64);
            }
        }
    }
    let alphas = particles
        .iter()
        .filter(|p| p.particle.particle_type == ParticleType::Alpha)
        .count();
    assert_eq!(alphas, 32);

    let mut halted = TimeData::start();
    halted.halted = true;
    assert!(spawn_linear_particles(position, extents, &spawner, &halted).is_empty());
}

/// Emission directions respect the requested speed and fall back to the x
/// axis for an all-zero draw.
#[test]
fn direction_speed_bound() {
    let v = direction_velocity(1000, 1000, 1000, 250_000_000);
    assert_eq!((v.x, v.y, v.z), (250_000_000, 0, 0));
    let w = direction_velocity(2000, 500, 0, 250_000_000);
    for c in [w.x, w.y, w.z] {
        assert!(c.abs() <= 250_000_000);
    }
    // the magnitude is close to the requested speed
    let mag = ((w.x as f64).powi(2) + (w.y as f64).powi(2) + (w.z as f64).powi(2)).sqrt();
    assert!((mag - 250_000_000.0).abs() / 250_000_000.0 < 0.01, "magnitude {}", mag);
}
