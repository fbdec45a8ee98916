use radiation_sim::constants::PPM;
use radiation_sim::data_reading::compound::{get_compounds, vacuum_compound, CompoundDataRow};
use radiation_sim::data_reading::element::{get_elements, ElementDataRow, IsotopeRecord};
use radiation_sim::data_reading::{read_data, DecayType, Substance, SubstanceData};
use radiation_sim::material::presets::{air, h3, pb208};
use radiation_sim::material::MaterialData;
use radiation_sim::materials::{air_material, dense_material, vacuum_material};
use radiation_sim::particle::{
    AmbientMaterial, Extent3, Object, ParticleType, TimeData, TrackedParticle, Vec3,
};
use radiation_sim::sampler::{spawn_object_particles, SourceDataError};
use radiation_sim::transport::run_tick;

fn hydrogen_row() -> ElementDataRow {
    ElementDataRow {
        z: 1,
        symbol: "H".to_owned(),
        name: "Hydrogen".to_owned(),
        nucleon_ratio: 500_000,
        energy: 13_600,
        density: 3_000_000,
    }
}

fn tritium_record() -> IsotopeRecord {
    IsotopeRecord {
        z: 1,
        n: 2,
        abundance: 0,
        half_life_ms: 389_000_000_000,
        decay_1: DecayType::BetaMinus,
        decay_energy: 18_600_000,
        gamma_energy: 0,
        atomic_mass: 3_016_049,
    }
}

fn one_table(z: usize) -> Vec<(usize, Vec<(u64, u64)>)> {
    vec![(z, vec![(1_000_000, 2_000_000)])]
}

/// Element building: fields carried over, curves scaled by the density,
/// the absorber flag tied to the presence of all three curves, isotopes
/// matched by atomic number with their derived activity.
#[test]
fn build_elements_from_rows() {
    let rows = vec![hydrogen_row()];
    let isotopes = vec![tritium_record()];
    let elements = get_elements(&rows, &isotopes, &one_table(1), &one_table(1), &one_table(1));
    assert_eq!(elements.len(), 1);
    let h = &elements[0];
    assert_eq!(h.z, 1);
    assert_eq!(h.symbol, "H");
    assert_eq!(h.density, 3_000_000);
    assert!(h.is_absorber);
    // mass coefficient 2e6 times density 3e6, in ppm: 6e6
    let alpha = h.stopping_powers.alpha.as_ref().unwrap();
    assert_eq!(alpha[0], (1_000_000, 6_000_000));
    assert_eq!(h.isotopes.len(), 1);
    let t = &h.isotopes[0];
    assert_eq!(t.n, 2);
    assert_eq!(t.half_life, Some(389_000_000_000));
    assert!(t.is_usable);
    // ln(2) * Avogadro / (half-life * atomic mass), in Bq/kg
    assert_eq!(t.activity, Some(355_785_611_588_628_862));
    assert_eq!(t.decay.gamma_energy, None);
}

/// An element missing one species' table is no absorber, and a stable
/// isotope (half-life zero) has no activity.
#[test]
fn build_elements_missing_data() {
    let rows = vec![hydrogen_row()];
    let mut stable = tritium_record();
    stable.half_life_ms = 0;
    stable.decay_energy = 50;
    let isotopes = vec![stable];
    let empty: Vec<(usize, Vec<(u64, u64)>)> = vec![];
    let elements = get_elements(&rows, &isotopes, &one_table(1), &one_table(1), &empty);
    let h = &elements[0];
    assert!(!h.is_absorber);
    assert!(h.stopping_powers.gamma.is_none());
    assert_eq!(h.isotopes[0].activity, None);
    assert_eq!(h.isotopes[0].half_life, None);
    assert!(!h.isotopes[0].is_usable);
}

/// Compound building, keyed by name.
#[test]
fn build_compounds_from_rows() {
    let rows = vec![CompoundDataRow {
        symbol: "Air".to_owned(),
        name: "Air".to_owned(),
        nucleon_ratio: 0,
        energy: 0,
        density: 1_200_000,
    }];
    let table = vec![("Air".to_owned(), vec![(5_000_000u64, 1_000_000u64)])];
    let compounds = get_compounds(&rows, &table, &table, &table);
    assert_eq!(compounds.len(), 1);
    assert!(compounds[0].is_absorber);
    let gamma = compounds[0].stopping_powers.gamma.as_ref().unwrap();
    assert_eq!(gamma[0], (5_000_000, 1_200_000));
}

/// Catalog assembly: radiators are the usable isotopes; absorbers list the
/// absorbing elements by their most abundant isotope, then the absorbing
/// compounds; the whole catalog validates.
#[test]
fn read_data_derives_lists() {
    let rows = vec![hydrogen_row()];
    let mut common = tritium_record();
    common.n = 0;
    common.abundance = 999_000;
    common.half_life_ms = 0;
    common.decay_energy = 0;
    let isotopes = vec![common, tritium_record()];
    let elements = get_elements(&rows, &isotopes, &one_table(1), &one_table(1), &one_table(1));
    let compound_rows = vec![CompoundDataRow {
        symbol: "W".to_owned(),
        name: "Water".to_owned(),
        nucleon_ratio: 0,
        energy: 0,
        density: 1_000_000_000,
    }];
    let table = vec![("Water".to_owned(), vec![(1u64, 1u64)])];
    let compounds = get_compounds(&compound_rows, &table, &table, &table);
    let data = read_data(elements, compounds);
    // the only usable isotope is tritium, at index 1
    assert_eq!(data.radiators, vec![Substance::Element { element: 0, isotope: 1 }]);
    // the element absorber selects the most abundant isotope (index 0),
    // and the water compound follows
    assert_eq!(
        data.absorbers,
        vec![
            Substance::Element { element: 0, isotope: 0 },
            Substance::Compound { compound: 0 }
        ]
    );
    assert!(data.validate());
}

/// Validation rejects a usable isotope with an unsupported decay class,
/// and one whose activity cannot be derived: malformed source data fails
/// at catalog build, not during simulation.
#[test]
fn validate_rejects_malformed_sources() {
    let rows = vec![hydrogen_row()];
    let mut unsupported = tritium_record();
    unsupported.decay_1 = DecayType::Other;
    let elements =
        get_elements(&rows, &vec![unsupported], &one_table(1), &one_table(1), &one_table(1));
    let data = read_data(elements, vec![]);
    assert!(!data.validate());

    let mut no_activity = tritium_record();
    no_activity.atomic_mass = 0;  // activity underivable, but still energetic
    let elements2 =
        get_elements(&rows, &vec![no_activity], &one_table(1), &one_table(1), &one_table(1));
    let data2 = read_data(elements2, vec![]);
    assert!(!data2.validate());
}

/// Validation rejects an empty curve.
#[test]
fn validate_rejects_empty_curve() {
    let rows = vec![hydrogen_row()];
    let isotopes = vec![tritium_record()];
    let broken = vec![(1usize, Vec::<(u64, u64)>::new())];
    let elements = get_elements(&rows, &isotopes, &broken, &one_table(1), &one_table(1));
    let data = read_data(elements, vec![]);
    assert!(!data.validate());
}

/// The vacuum compound.
#[test]
fn vacuum_compound_shape() {
    let v = vacuum_compound();
    assert_eq!(v.symbol, "Vac");
    assert_eq!(v.density, 0);
    assert!(v.is_absorber);
    assert_eq!(v.stopping_powers.alpha.as_ref().unwrap()[0], (0, 0));
}

/// The single-substance presets find their isotopes and compounds, and
/// report what the catalog lacks.
#[test]
fn presets_lookup() {
    let rows = vec![hydrogen_row()];
    let isotopes = vec![tritium_record()];
    let elements = get_elements(&rows, &isotopes, &one_table(1), &one_table(1), &one_table(1));
    let compound_rows = vec![CompoundDataRow {
        symbol: "Air".to_owned(),
        name: "Air".to_owned(),
        nucleon_ratio: 0,
        energy: 0,
        density: 1_200_000,
    }];
    let compounds = get_compounds(&compound_rows, &vec![], &vec![], &vec![]);
    let data = read_data(elements, compounds);
    let tritium = h3(&data).unwrap();
    assert_eq!(tritium.parts.len(), 1);
    assert_eq!(tritium.parts[0].0, PPM);
    assert_eq!(tritium.parts[0].1, Substance::Element { element: 0, isotope: 0 });
    assert!(pb208(&data).is_none());
    let air_mixture = air(&data).unwrap();
    assert_eq!(air_mixture.parts[0].1, Substance::Compound { compound: 0 });
}

/// The flat per-species rate presets.
#[test]
fn flat_material_presets() {
    let v = vacuum_material();
    assert_eq!(v.len(), 5);
    assert!(v.iter().all(|&(_, r)| r == 0));
    let a = air_material();
    assert_eq!(a[0], (ParticleType::Alpha, 1000));
    assert_eq!(a[2], (ParticleType::Gamma, 50));
    let d = dense_material();
    assert_eq!(d[1], (ParticleType::Electron, 10_000_000_000));
    assert_eq!(d[3], (ParticleType::Neutron, -100_000));
}

fn radioactive_scene(decay_type: DecayType, gamma_energy: u64) -> (Vec<Object>, SubstanceData) {
    let rows = vec![ElementDataRow {
        z: 94,
        symbol: "Pu".to_owned(),
        name: "Plutonium".to_owned(),
        nucleon_ratio: 0,
        energy: 0,
        density: 1_000_000_000,
    }];
    let isotopes = vec![IsotopeRecord {
        z: 94,
        n: 145,
        abundance: 0,
        half_life_ms: 1,
        decay_1: decay_type,
        decay_energy: 5_000_000_000,
        gamma_energy,
        atomic_mass: 1,
    }];
    let mut elements =
        get_elements(&rows, &isotopes, &one_table(94), &one_table(94), &one_table(94));
    // pin the activity so that each sub-step expects exactly two decays:
    // activity * density = 1e24, so the staged formula gives 2.0 per
    // sub-step for a 1e7 x 2e6 x 1e7 nm volume and a 10 ps tick
    elements[0].isotopes[0].activity = Some(1_000_000_000_000_000);
    let data = read_data(elements, vec![]);
    let object = Object {
        position: Vec3 { x: 0, y: 0, z: 0 },
        extents: Extent3::new(10_000_000, 2_000_000, 10_000_000),
        material: MaterialData {
            parts: vec![(PPM, Substance::Element { element: 0, isotope: 0 })],
        },
        absorbed_energy: 0,
    };
    (vec![object], data)
}

/// The sampler emits exactly the expected whole number of decays when the
/// expectation has no fractional part: two per sub-step, with a correlated
/// gamma quantum each.
#[test]
fn sampler_deterministic_count() {
    fastrand::seed(21);
    let (objects, data) = radioactive_scene(DecayType::Alpha, 700_000_000);
    assert!(data.validate());
    let time_data = TimeData::start();
    let particles = spawn_object_particles(&objects, &time_data, &data).unwrap();
    // 16 sub-steps, 2 decays each, one charged particle and one photon per decay
    assert_eq!(particles.len(), 64);
    let charged = particles
        .iter()
        .filter(|p| p.particle.particle_type == ParticleType::Alpha)
        .count();
    let photons = particles
        .iter()
        .filter(|p| p.particle.particle_type == ParticleType::Gamma)
        .count();
    assert_eq!(charged, 32);
    assert_eq!(photons, 32);
    for p in &particles {
        match p.particle.particle_type {
            ParticleType::Gamma => assert_eq!(p.particle.energy, 700_000_000),
            _ => assert_eq!(p.particle.energy, 1000),
        }
    }
}

/// A usable isotope with an unsupported decay class is reported as
/// malformed data instead of being emitted.
#[test]
fn unsupported_decay_is_rejected() {
    fastrand::seed(22);
    let (objects, data) = radioactive_scene(DecayType::Other, 0);
    let time_data = TimeData::start();
    assert_eq!(
        spawn_object_particles(&objects, &time_data, &data),
        Err(SourceDataError::UnsupportedDecay)
    );
}

/// A usable isotope whose activity could not be derived is reported as
/// malformed data instead of being silently skipped.
#[test]
fn missing_activity_is_rejected() {
    fastrand::seed(24);
    let (objects, data) = radioactive_scene(DecayType::Alpha, 0);
    let mut broken = data.clone();
    broken.elements[0].isotopes[0].activity = None;
    let time_data = TimeData::start();
    assert_eq!(
        spawn_object_particles(&objects, &time_data, &broken),
        Err(SourceDataError::MissingActivity)
    );
}

/// A halted clock samples nothing.
#[test]
fn halted_sampler_is_inert() {
    let (objects, data) = radioactive_scene(DecayType::Alpha, 0);
    let mut time_data = TimeData::start();
    time_data.halted = true;
    let particles = spawn_object_particles(&objects, &time_data, &data).unwrap();
    assert!(particles.is_empty());
}

/// One full tick: decays spawn, particles step and deposit, time passes;
/// halting freezes everything including the elapsed-time account.
#[test]
fn full_tick_and_halt() {
    fastrand::seed(23);
    let (mut objects, data) = radioactive_scene(DecayType::BetaMinus, 0);
    let ambient = AmbientMaterial {
        material: MaterialData {
            parts: vec![(PPM, Substance::Element { element: 0, isotope: 0 })],
        },
    };
    let mut time_data = TimeData::start();
    let mut particles: Vec<TrackedParticle> = vec![];
    run_tick(&mut particles, &mut objects, &ambient, &mut time_data, &data).unwrap();
    assert_eq!(time_data.time_passed, 160_000);
    run_tick(&mut particles, &mut objects, &ambient, &mut time_data, &data).unwrap();
    assert_eq!(time_data.time_passed, 320_000);

    time_data.halted = true;
    let before_particles = particles.len();
    let before_dose = objects[0].absorbed_energy;
    run_tick(&mut particles, &mut objects, &ambient, &mut time_data, &data).unwrap();
    assert_eq!(time_data.time_passed, 320_000);
    assert_eq!(particles.len(), before_particles);
    assert_eq!(objects[0].absorbed_energy, before_dose);
}
