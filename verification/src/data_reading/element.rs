//! Elements and their isotopes: raw rows, parsed records, and the build of
//! the per-element catalog entries.

use vstd::prelude::*;

use crate::constants::{ACTIVITY_NUMERATOR, USABLE_DECAY_ENERGY};
use crate::particle::ParticleType;
use crate::data_reading::{
    spec_cap_u64, spec_curveset_built, spec_has_key, CurveSet, MassCoefficientTable,
};
use crate::stopping::StoppingPower;

verus! {

/// The dominant decay class of an isotope.
#[derive(Debug, Clone, Copy, PartialEq, Eq, Structural)]
pub enum DecayType {
    BetaMinus,
    BetaPlus,
    BetaElectronCapture,
    Alpha,
    Other,
}

/// The charged species a decay class emits; electron-emitting classes
/// collapse to the electron, and unsupported classes emit nothing.
pub open spec fn spec_classify_decay(d: DecayType) -> Option<ParticleType> {
    match d {
        DecayType::Alpha => Some(ParticleType::Alpha),
        DecayType::BetaMinus => Some(ParticleType::Electron),
        DecayType::BetaPlus => Some(ParticleType::Electron),
        DecayType::BetaElectronCapture => Some(ParticleType::Electron),
        DecayType::Other => None,
    }
}

/// Classifies a decay into the charged species it emits.
pub fn classify_decay(d: DecayType) -> (r: Option<ParticleType>)
    ensures
        r == spec_classify_decay(d),
{
    match d {
        DecayType::Alpha => Some(ParticleType::Alpha),
        DecayType::BetaMinus => Some(ParticleType::Electron),
        DecayType::BetaPlus => Some(ParticleType::Electron),
        DecayType::BetaElectronCapture => Some(ParticleType::Electron),
        DecayType::Other => None,
    }
}

/// One dominant decay: its class, its energy in meV, and the energy of the
/// correlated gamma quantum (in meV) when the decay carries one.
#[derive(Debug, Clone, Copy, PartialEq, Eq, Structural)]
pub struct Decay {
    pub decay_type: DecayType,
    pub decay_energy: u64,
    pub gamma_energy: Option<u64>,
}

/// An isotope: proton and neutron count, abundance in ppm, half-life in ms
/// (`None` means stable), atomic mass in micro-u, its dominant decay, the
/// derived specific activity in Bq/kg, and whether it is usable as a
/// radiation source.
#[derive(Debug, Clone, Copy, PartialEq, Eq, Structural)]
pub struct Isotope {
    pub z: usize,
    pub n: usize,
    pub abundance: u64,
    pub half_life: Option<u64>,
    pub atomic_mass: u64,
    pub decay: Decay,
    pub activity: Option<u64>,
    pub is_usable: bool,
}

/// A raw isotope table row, all numeric columns still unparsed text.
#[derive(Debug, Clone, PartialEq, Eq)]
pub struct IsotopeDataRow {
    pub z: usize,
    pub n: usize,
    pub radius: String,
    pub abundance: String,
    pub half_life_sec: String,
    pub decay_1: String,
    pub decay_1_percent: String,
    pub decay_2: String,
    pub decay_2_percent: String,
    pub decay_3: String,
    pub decay_3_percent: String,
    pub decay_energy: String,
    pub gamma_energy: String,
    pub atomic_mass: String,
    pub massexcess: String,
}

/// An isotope row with its numeric columns parsed: abundance in ppm,
/// half-life in ms (zero meaning stable), decay energies in meV (zero gamma
/// energy meaning no correlated gamma), atomic mass in micro-u.
#[derive(Debug, Clone, Copy, PartialEq, Eq, Structural)]
pub struct IsotopeRecord {
    pub z: usize,
    pub n: usize,
    pub abundance: u64,
    pub half_life_ms: u64,
    pub decay_1: DecayType,
    pub decay_energy: u64,
    pub gamma_energy: u64,
    pub atomic_mass: u64,
}

/// An element table row: atomic number, labels, nucleon ratio in ppm,
/// characteristic energy in meV, density in mg/m^3.
#[derive(Debug, Clone, PartialEq, Eq)]
pub struct ElementDataRow {
    pub z: usize,
    pub symbol: String,
    pub name: String,
    pub nucleon_ratio: u64,
    pub energy: u64,
    pub density: u64,
}

/// An element of the catalog: identity and labels, density in mg/m^3, its
/// isotopes, the stopping-power curves for the tracked species, and whether
/// curves exist for every one of them.
#[derive(Debug, Clone)]
pub struct Element {
    pub z: usize,
    pub symbol: String,
    pub name: String,
    pub nucleon_ratio: u64,
    pub energy: u64,
    pub density: u64,
    pub isotopes: Vec<Isotope>,
    pub stopping_powers: CurveSet,
    pub is_absorber: bool,
}

/// The specific activity in Bq/kg derived from a half-life in ms and an
/// atomic mass in micro-u, capped at the largest `u64`; stable isotopes
/// (half-life zero) and malformed rows (mass zero) have none.
pub open spec fn spec_activity(half_life_ms: u64, atomic_mass: u64) -> Option<u64> {
    if half_life_ms == 0 || atomic_mass == 0 {
        None
    } else {
        Some(spec_cap_u64((ACTIVITY_NUMERATOR as int) / ((half_life_ms as int) * (atomic_mass as int))) as u64)
    }
}

/// The isotope built from a parsed row.
pub open spec fn spec_build_isotope(r: IsotopeRecord) -> Isotope {
    Isotope {
        z: r.z,
        n: r.n,
        abundance: r.abundance,
        half_life: if r.half_life_ms == 0 {
            None
        } else {
            Some(r.half_life_ms)
        },
        atomic_mass: r.atomic_mass,
        decay: Decay {
            decay_type: r.decay_1,
            decay_energy: r.decay_energy,
            gamma_energy: if r.gamma_energy == 0 {
                None
            } else {
                Some(r.gamma_energy)
            },
        },
        activity: spec_activity(r.half_life_ms, r.atomic_mass),
        is_usable: r.decay_energy > USABLE_DECAY_ENERGY,
    }
}

/// Builds one isotope from a parsed row: derives the specific activity
/// `ln(2) * Avogadro / (half_life * atomic_mass)` and the usability flag.
pub fn build_isotope(r: &IsotopeRecord) -> (iso: Isotope)
    ensures
        iso == spec_build_isotope(*r),
{
    let activity: Option<u64> = if r.half_life_ms == 0 || r.atomic_mass == 0 {
        None
    } else {
        let denom: u128 = crate::math::mul_u64(r.half_life_ms, r.atomic_mass);
        let raw: u128 = ACTIVITY_NUMERATOR / denom;
        if raw > u64::MAX as u128 {
            Some(u64::MAX)
        } else {
            Some(raw as u64)
        }
    };
    Isotope {
        z: r.z,
        n: r.n,
        abundance: r.abundance,
        half_life: if r.half_life_ms == 0 {
            None
        } else {
            Some(r.half_life_ms)
        },
        atomic_mass: r.atomic_mass,
        decay: Decay {
            decay_type: r.decay_1,
            decay_energy: r.decay_energy,
            gamma_energy: if r.gamma_energy == 0 {
                None
            } else {
                Some(r.gamma_energy)
            },
        },
        activity,
        is_usable: r.decay_energy > USABLE_DECAY_ENERGY,
    }
}

/// The isotopes belonging to element `z`, built from the rows that carry
/// that atomic number, in row order.
pub open spec fn spec_isotopes_for(rs: Seq<IsotopeRecord>, z: usize) -> Seq<Isotope>
    decreases rs.len(),
{
    if rs.len() == 0 {
        Seq::empty()
    } else {
        let rest = spec_isotopes_for(rs.drop_last(), z);
        if rs.last().z == z {
            rest.push(spec_build_isotope(rs.last()))
        } else {
            rest
        }
    }
}

/// Collects and builds the isotopes of element `z`.
pub fn build_isotopes_for(rows: &Vec<IsotopeRecord>, z: usize) -> (isos: Vec<Isotope>)
    ensures
        isos@ == spec_isotopes_for(rows@, z),
{
    let mut isos: Vec<Isotope> = Vec::new();
    let n = rows.len();
    let mut j: usize = 0;
    while j < n
        invariant
            0 <= j <= n,
            n == rows@.len(),
            isos@ == spec_isotopes_for(rows@.subrange(0, j as int), z),
        decreases n - j,
    {
        proof {
            assert(rows@.subrange(0, j + 1 as int).drop_last() =~= rows@.subrange(0, j as int));
            assert(rows@.subrange(0, j + 1 as int).last() == rows@[j as int]);
        }
        if rows[j].z == z {
            let iso = build_isotope(&rows[j]);
            isos.push(iso);
        }
        j = j + 1;
    }
    proof {
        assert(rows@.subrange(0, n as int) =~= rows@);
    }
    isos
}

/// What `get_elements` promises of each built element: the row's fields are
/// carried over, the isotopes are exactly those of the element's rows, the
/// curves are the scaled tables for its atomic number, and the absorber flag
/// holds exactly when all three tables know the element.
pub open spec fn spec_element_built(
    e: Element,
    row: ElementDataRow,
    iso_rows: Seq<IsotopeRecord>,
    alpha: Seq<(usize, StoppingPower)>,
    electron: Seq<(usize, StoppingPower)>,
    gamma: Seq<(usize, StoppingPower)>,
) -> bool {
    &&& e.z == row.z
    &&& e.symbol@ == row.symbol@
    &&& e.name@ == row.name@
    &&& e.nucleon_ratio == row.nucleon_ratio
    &&& e.energy == row.energy
    &&& e.density == row.density
    &&& e.isotopes@ == spec_isotopes_for(iso_rows, row.z)
    &&& spec_curveset_built(e.stopping_powers, alpha, electron, gamma, row.z, row.density)
    &&& e.is_absorber == (spec_has_key(alpha, row.z) && spec_has_key(electron, row.z)
        && spec_has_key(gamma, row.z))
}

/// Builds the element catalog from parsed element rows, parsed isotope rows,
/// and the three per-species mass-coefficient tables keyed by atomic number.
/// Each table's coefficients are multiplied by the element's density to give
/// the volumetric rates of its stopping-power curves.
pub fn get_elements(
    element_rows: &Vec<ElementDataRow>,
    isotope_rows: &Vec<IsotopeRecord>,
    alpha_tables: &MassCoefficientTable,
    electron_tables: &MassCoefficientTable,
    gamma_tables: &MassCoefficientTable,
) -> (elements: Vec<Element>)
    ensures
        elements@.len() == element_rows@.len(),
        forall|i: int|
            0 <= i < elements@.len() ==> spec_element_built(
                #[trigger] elements@[i],
                element_rows@[i],
                isotope_rows@,
                alpha_tables@,
                electron_tables@,
                gamma_tables@,
            ),
{
    let mut elements: Vec<Element> = Vec::new();
    let n = element_rows.len();
    let mut i: usize = 0;
    while i < n
        invariant
            0 <= i <= n,
            n == element_rows@.len(),
            elements@.len() == i,
            forall|p: int|
                0 <= p < i ==> spec_element_built(
                    #[trigger] elements@[p],
                    element_rows@[p],
                    isotope_rows@,
                    alpha_tables@,
                    electron_tables@,
                    gamma_tables@,
                ),
        decreases n - i,
    {
        let row = &element_rows[i];
        let isotopes = build_isotopes_for(isotope_rows, row.z);
        let stopping_powers = crate::data_reading::build_curveset(
            alpha_tables,
            electron_tables,
            gamma_tables,
            row.z,
            row.density,
        );
        let is_absorber = stopping_powers.alpha.is_some() && stopping_powers.electron.is_some()
            && stopping_powers.gamma.is_some();
        let element = Element {
            z: row.z,
            symbol: row.symbol.clone(),
            name: row.name.clone(),
            nucleon_ratio: row.nucleon_ratio,
            energy: row.energy,
            density: row.density,
            isotopes,
            stopping_powers,
            is_absorber,
        };
        elements.push(element);
        i = i + 1;
    }
    elements
}

} // verus!
