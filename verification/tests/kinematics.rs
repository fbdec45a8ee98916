use radiation_sim::constants::LIGHT_SPEED;
use radiation_sim::kinematics::{energy_to_velocity, velocity_to_energy, MAX_PARTICLE_ENERGY};
use radiation_sim::particle::ParticleType;

/// Round trip: converting an energy to a speed and back recovers the
/// energy within the quantization of the integer model (speeds are whole
/// m/s, so an absolute floor of a few eV remains for heavy species).
#[test]
fn round_trip_energy_velocity() {
    let species = [ParticleType::Electron, ParticleType::Alpha, ParticleType::Proton];
    let energies: [u64; 6] = [0, 1_000, 100_000_000, 511_055_309, 5_000_000_000, 10_000_000_000];
    for &t in species.iter() {
        for &e in energies.iter() {
            let v = energy_to_velocity(e, t);
            let rt = velocity_to_energy(v, t);
            let tolerance = e / 1000 + 15_000;
            let diff = if rt > e { rt - e } else { e - rt };
            assert!(
                diff <= tolerance,
                "round trip {} -> {} -> {} (tolerance {})",
                e,
                v,
                rt,
                tolerance
            );
        }
    }
}

/// The zero case of the round trip is exact.
#[test]
fn round_trip_zero_exact() {
    for t in [ParticleType::Electron, ParticleType::Alpha, ParticleType::Gamma] {
        assert_eq!(energy_to_velocity(0, t), 0);
        assert_eq!(velocity_to_energy(0, t), 0);
    }
}

/// Speed bound: no accepted energy ever reaches light speed.
#[test]
fn speed_stays_below_light_speed() {
    let energies: [u64; 5] = [0, 1, 1_000_000_000, 123_456_789_012_345, MAX_PARTICLE_ENERGY];
    for &e in energies.iter() {
        for t in [ParticleType::Electron, ParticleType::Alpha, ParticleType::Neutron] {
            let v = energy_to_velocity(e, t);
            assert!(v < LIGHT_SPEED, "speed {} for energy {}", v, e);
        }
    }
}

/// A known electron conversion: one rest energy of kinetic energy gives
/// the textbook relativistic speed sqrt(3)/2 c.
#[test]
fn electron_at_rest_energy() {
    let v = energy_to_velocity(511_055_309, ParticleType::Electron);
    let expected = (0.75f64.sqrt() * LIGHT_SPEED as f64) as i64;
    let diff = (v as i64 - expected).abs();
    assert!(diff <= 2, "v = {} expected about {}", v, expected);
}

/// Energy/speed conversion is monotone over a sample of energies.
#[test]
fn velocity_monotone_in_energy() {
    let mut last = 0u64;
    for e in [0u64, 10, 1_000, 50_000, 1_000_000, 80_000_000, 2_000_000_000] {
        let v = energy_to_velocity(e, ParticleType::Electron);
        assert!(v >= last);
        last = v;
    }
}
