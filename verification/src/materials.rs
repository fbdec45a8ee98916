//! Simple standalone per-species interaction-rate presets, in millionths of
//! the rate unit per species.

use vstd::prelude::*;

use crate::particle::ParticleType;

verus! {

/// A flat per-species interaction-rate table, each rate in millionths.
pub type ParticleMaterial = Vec<(ParticleType, i64)>;

/// A medium that interacts with nothing.
pub fn vacuum_material() -> (m: ParticleMaterial)
    ensures
        m@ == seq![
            (ParticleType::Alpha, 0i64),
            (ParticleType::Electron, 0i64),
            (ParticleType::Gamma, 0i64),
            (ParticleType::Neutron, 0i64),
            (ParticleType::Proton, 0i64),
        ],
{
    let mut material: ParticleMaterial = Vec::new();
    material.push((ParticleType::Alpha, 0));
    material.push((ParticleType::Electron, 0));
    material.push((ParticleType::Gamma, 0));
    material.push((ParticleType::Neutron, 0));
    material.push((ParticleType::Proton, 0));
    proof {
        assert(material@ =~= seq![
            (ParticleType::Alpha, 0i64),
            (ParticleType::Electron, 0i64),
            (ParticleType::Gamma, 0i64),
            (ParticleType::Neutron, 0i64),
            (ParticleType::Proton, 0i64),
        ]);
    }
    material
}

/// A thin medium: weak interaction with charged particles, weaker with
/// photons, none with neutrons or protons.
pub fn air_material() -> (m: ParticleMaterial)
    ensures
        m@ == seq![
            (ParticleType::Alpha, 1000i64),
            (ParticleType::Electron, 100i64),
            (ParticleType::Gamma, 50i64),
            (ParticleType::Neutron, 0i64),
            (ParticleType::Proton, 0i64),
        ],
{
    let mut material: ParticleMaterial = Vec::new();
    material.push((ParticleType::Alpha, 1000));
    material.push((ParticleType::Electron, 100));
    material.push((ParticleType::Gamma, 50));
    material.push((ParticleType::Neutron, 0));
    material.push((ParticleType::Proton, 0));
    proof {
        assert(material@ =~= seq![
            (ParticleType::Alpha, 1000i64),
            (ParticleType::Electron, 100i64),
            (ParticleType::Gamma, 50i64),
            (ParticleType::Neutron, 0i64),
            (ParticleType::Proton, 0i64),
        ]);
    }
    material
}

/// A dense medium: strong interaction with every charged species and with
/// photons, and a slight negative rate for neutrons and protons.
pub fn dense_material() -> (m: ParticleMaterial)
    ensures
        m@ == seq![
            (ParticleType::Alpha, 1_000_000_000i64),
            (ParticleType::Electron, 10_000_000_000i64),
            (ParticleType::Gamma, 1_000_000_000i64),
            (ParticleType::Neutron, -100_000i64),
            (ParticleType::Proton, -100_000i64),
        ],
{
    let mut material: ParticleMaterial = Vec::new();
    material.push((ParticleType::Alpha, 1_000_000_000));
    material.push((ParticleType::Electron, 10_000_000_000));
    material.push((ParticleType::Gamma, 1_000_000_000));
    material.push((ParticleType::Neutron, -100_000));
    material.push((ParticleType::Proton, -100_000));
    proof {
        assert(material@ =~= seq![
            (ParticleType::Alpha, 1_000_000_000i64),
            (ParticleType::Electron, 10_000_000_000i64),
            (ParticleType::Gamma, 1_000_000_000i64),
            (ParticleType::Neutron, -100_000i64),
            (ParticleType::Proton, -100_000i64),
        ]);
    }
    material
}

} // verus!
