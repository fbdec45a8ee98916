//! The substance catalog: elements, compounds, their stopping-power curve
//! sets, and the derived lists of radiators and absorbers.

use vstd::prelude::*;

pub mod compound;
pub mod element;

pub use compound::Compound;
pub use element::{classify_decay, spec_classify_decay, Decay, DecayType, Element,
    ElementDataRow, Isotope, IsotopeDataRow, IsotopeRecord};

use crate::constants::{MAX_DENSITY, PPM};
use crate::kinematics::MAX_PARTICLE_ENERGY;
use crate::particle::ParticleType;
use crate::stopping::{curve_is_wf, spec_curve_wf, StoppingPower};

verus! {

/// A per-species mass-coefficient table keyed by atomic number: energies in
/// meV, coefficients in the per-mass unit that density scaling turns into a
/// volumetric rate.
pub type MassCoefficientTable = Vec<(usize, StoppingPower)>;

/// A per-species mass-coefficient table keyed by compound name.
pub type NamedCoefficientTable = Vec<(String, StoppingPower)>;

/// Caps an integer at the largest `u64`.
pub open spec fn spec_cap_u64(x: int) -> int {
    if x > u64::MAX {
        u64::MAX as int
    } else {
        x
    }
}

/// Whether a table keyed by atomic number knows the key `z`.
pub open spec fn spec_has_key(t: Seq<(usize, StoppingPower)>, z: usize) -> bool
    decreases t.len(),
{
    t.len() > 0 && (t[0].0 == z || spec_has_key(t.drop_first(), z))
}

/// The curve of the first table entry with key `z`.
pub open spec fn spec_lookup(t: Seq<(usize, StoppingPower)>, z: usize) -> Seq<(u64, u64)>
    decreases t.len(),
{
    if t.len() == 0 {
        Seq::empty()
    } else if t[0].0 == z {
        t[0].1@
    } else {
        spec_lookup(t.drop_first(), z)
    }
}

/// Whether a table keyed by name knows the key `name`.
pub open spec fn spec_has_name(t: Seq<(String, StoppingPower)>, name: Seq<char>) -> bool
    decreases t.len(),
{
    t.len() > 0 && (t[0].0@ == name || spec_has_name(t.drop_first(), name))
}

/// The curve of the first table entry with key `name`.
pub open spec fn spec_lookup_name(t: Seq<(String, StoppingPower)>, name: Seq<char>) -> Seq<
    (u64, u64),
>
    decreases t.len(),
{
    if t.len() == 0 {
        Seq::empty()
    } else if t[0].0@ == name {
        t[0].1@
    } else {
        spec_lookup_name(t.drop_first(), name)
    }
}

/// A scaled curve keeps the sample energies and multiplies each mass
/// coefficient by the density, in ppm (so a coefficient `c` becomes
/// `c * density / PPM`, capped at the largest `u64`).
pub open spec fn spec_curve_scaled(out: Seq<(u64, u64)>, src: Seq<(u64, u64)>, density: u64) -> bool {
    &&& out.len() == src.len()
    &&& forall|k: int|
        0 <= k < src.len() ==> (#[trigger] out[k]).0 == src[k].0 && out[k].1 == spec_cap_u64(
            (src[k].1 as int) * (density as int) / (PPM as int),
        )
}

/// Multiplies a mass-coefficient curve by a density to obtain the
/// volumetric stopping-power curve.
pub fn scale_curve(src: &StoppingPower, density: u64) -> (out: StoppingPower)
    ensures
        spec_curve_scaled(out@, src@, density),
{
    let mut out: StoppingPower = Vec::new();
    let n = src.len();
    let mut k: usize = 0;
    while k < n
        invariant
            0 <= k <= n,
            n == src@.len(),
            out@.len() == k,
            forall|p: int|
                0 <= p < k ==> (#[trigger] out@[p]).0 == src@[p].0 && out@[p].1 == spec_cap_u64(
                    (src@[p].1 as int) * (density as int) / (PPM as int),
                ),
        decreases n - k,
    {
        let sample = src[k];
        let scaled: u128 = crate::math::mul_u64(sample.1, density) / (PPM as u128);
        let rate: u64 = if scaled > u64::MAX as u128 {
            u64::MAX
        } else {
            scaled as u64
        };
        out.push((sample.0, rate));
        k = k + 1;
    }
    out
}

/// Finds the first entry with key `z` in a table keyed by atomic number.
pub fn find_curve(tables: &MassCoefficientTable, z: usize) -> (r: Option<&StoppingPower>)
    ensures
        r is Some <==> spec_has_key(tables@, z),
        r matches Some(c) ==> c@ == spec_lookup(tables@, z),
{
    let n = tables.len();
    let mut i: usize = 0;
    proof {
        assert(tables@.skip(0) =~= tables@);
    }
    while i < n
        invariant
            0 <= i <= n,
            n == tables@.len(),
            spec_has_key(tables@, z) == spec_has_key(tables@.skip(i as int), z),
            spec_lookup(tables@, z) == spec_lookup(tables@.skip(i as int), z),
        decreases n - i,
    {
        proof {
            assert(tables@.skip(i as int).drop_first() =~= tables@.skip(i + 1 as int));
            assert(tables@.skip(i as int)[0] == tables@[i as int]);
        }
        if tables[i].0 == z {
            return Some(&tables[i].1);
        }
        i = i + 1;
    }
    proof {
        assert(tables@.skip(n as int).len() == 0);
    }
    None
}

/// The stopping-power curves of a substance, one optional curve per tracked
/// species that can interact; protons and neutrons have none.
#[derive(Debug, Clone)]
pub struct CurveSet {
    pub alpha: Option<StoppingPower>,
    pub electron: Option<StoppingPower>,
    pub gamma: Option<StoppingPower>,
}

/// The curve a set holds for a species.
pub open spec fn spec_curve_for(cs: CurveSet, particle_type: ParticleType) -> Option<StoppingPower> {
    match particle_type {
        ParticleType::Alpha => cs.alpha,
        ParticleType::Electron => cs.electron,
        ParticleType::Gamma => cs.gamma,
        _ => None,
    }
}

impl CurveSet {
    /// The curve for a species, if the set holds one.
    pub fn curve_for(&self, particle_type: ParticleType) -> (r: Option<&StoppingPower>)
        ensures
            r matches Some(c) ==> spec_curve_for(*self, particle_type) == Some(*c),
            r is None ==> spec_curve_for(*self, particle_type) is None,
    {
        match particle_type {
            ParticleType::Alpha => self.alpha.as_ref(),
            ParticleType::Electron => self.electron.as_ref(),
            ParticleType::Gamma => self.gamma.as_ref(),
            _ => None,
        }
    }

    /// Every curve the set holds is non-empty and ascending, with its
    /// energies and rates inside the given bounds.
    pub open spec fn wf(self) -> bool {
        &&& (self.alpha matches Some(c) ==> spec_curve_wf(c@))
        &&& (self.electron matches Some(c) ==> spec_curve_wf(c@))
        &&& (self.gamma matches Some(c) ==> spec_curve_wf(c@))
    }

    /// Checks that every curve present is non-empty and ascending.
    pub fn check_wf(&self) -> (r: bool)
        ensures
            r == self.wf(),
    {
        let alpha_ok = match self.alpha.as_ref() {
            Some(c) => curve_is_wf(c),
            None => true,
        };
        let electron_ok = match self.electron.as_ref() {
            Some(c) => curve_is_wf(c),
            None => true,
        };
        let gamma_ok = match self.gamma.as_ref() {
            Some(c) => curve_is_wf(c),
            None => true,
        };
        alpha_ok && electron_ok && gamma_ok
    }
}

/// What building a curve set from the three tables promises: a curve exists
/// for a species exactly when its table knows the key, and it is then the
/// table's curve scaled by the density.
pub open spec fn spec_curveset_built(
    cs: CurveSet,
    alpha: Seq<(usize, StoppingPower)>,
    electron: Seq<(usize, StoppingPower)>,
    gamma: Seq<(usize, StoppingPower)>,
    z: usize,
    density: u64,
) -> bool {
    &&& (cs.alpha is Some) == spec_has_key(alpha, z)
    &&& (cs.alpha matches Some(c) ==> spec_curve_scaled(c@, spec_lookup(alpha, z), density))
    &&& (cs.electron is Some) == spec_has_key(electron, z)
    &&& (cs.electron matches Some(c) ==> spec_curve_scaled(c@, spec_lookup(electron, z), density))
    &&& (cs.gamma is Some) == spec_has_key(gamma, z)
    &&& (cs.gamma matches Some(c) ==> spec_curve_scaled(c@, spec_lookup(gamma, z), density))
}

/// Builds the curve set of an element: looks its atomic number up in each
/// species table and scales the found curves by the element's density.
pub fn build_curveset(
    alpha_tables: &MassCoefficientTable,
    electron_tables: &MassCoefficientTable,
    gamma_tables: &MassCoefficientTable,
    z: usize,
    density: u64,
) -> (cs: CurveSet)
    ensures
        spec_curveset_built(cs, alpha_tables@, electron_tables@, gamma_tables@, z, density),
{
    let alpha = match find_curve(alpha_tables, z) {
        Some(c) => Some(scale_curve(c, density)),
        None => None,
    };
    let electron = match find_curve(electron_tables, z) {
        Some(c) => Some(scale_curve(c, density)),
        None => None,
    };
    let gamma = match find_curve(gamma_tables, z) {
        Some(c) => Some(scale_curve(c, density)),
        None => None,
    };
    CurveSet { alpha, electron, gamma }
}

/// A substance of the catalog: one isotope of an element, or a compound,
/// named by index.
#[derive(Debug, Clone, Copy, PartialEq, Eq, Structural)]
pub enum Substance {
    Element { element: usize, isotope: usize },
    Compound { compound: usize },
}

/// The catalog: the built elements and compounds, the substances usable as
/// radiation sources, and the substances with curves for every tracked
/// species.
#[derive(Debug, Clone)]
pub struct SubstanceData {
    pub elements: Vec<Element>,
    pub compounds: Vec<Compound>,
    pub radiators: Vec<Substance>,
    pub absorbers: Vec<Substance>,
}

impl Substance {
    /// The substance's indices point into the catalog.
    pub open spec fn spec_wf(self, data: SubstanceData) -> bool {
        match self {
            Substance::Element { element, isotope } => element < data.elements@.len() && isotope
                < data.elements@[element as int].isotopes@.len(),
            Substance::Compound { compound } => compound < data.compounds@.len(),
        }
    }

    /// The substance's symbol.
    pub fn symbol<'a>(&self, data: &'a SubstanceData) -> (r: &'a String)
        requires
            self.spec_wf(*data),
        ensures
            r@ == self.spec_symbol(*data),
    {
        match self {
            Substance::Element { element, .. } => &data.elements[*element].symbol,
            Substance::Compound { compound } => &data.compounds[*compound].symbol,
        }
    }

    /// The symbol as a character sequence.
    pub open spec fn spec_symbol(self, data: SubstanceData) -> Seq<char> {
        match self {
            Substance::Element { element, .. } => data.elements@[element as int].symbol@,
            Substance::Compound { compound } => data.compounds@[compound as int].symbol@,
        }
    }

    /// The substance's name.
    pub fn name<'a>(&self, data: &'a SubstanceData) -> (r: &'a String)
        requires
            self.spec_wf(*data),
        ensures
            r@ == self.spec_name(*data),
    {
        match self {
            Substance::Element { element, .. } => &data.elements[*element].name,
            Substance::Compound { compound } => &data.compounds[*compound].name,
        }
    }

    /// The name as a character sequence.
    pub open spec fn spec_name(self, data: SubstanceData) -> Seq<char> {
        match self {
            Substance::Element { element, .. } => data.elements@[element as int].name@,
            Substance::Compound { compound } => data.compounds@[compound as int].name@,
        }
    }

    /// The substance's density in mg/m^3.
    pub fn density(&self, data: &SubstanceData) -> (r: u64)
        requires
            self.spec_wf(*data),
        ensures
            r == self.spec_density(*data),
    {
        match self {
            Substance::Element { element, .. } => data.elements[*element].density,
            Substance::Compound { compound } => data.compounds[*compound].density,
        }
    }

    /// The density the catalog records for the substance.
    pub open spec fn spec_density(self, data: SubstanceData) -> u64 {
        match self {
            Substance::Element { element, .. } => data.elements@[element as int].density,
            Substance::Compound { compound } => data.compounds@[compound as int].density,
        }
    }

    /// The substance's curve set.
    pub open spec fn spec_curveset(self, data: SubstanceData) -> CurveSet {
        match self {
            Substance::Element { element, .. } => data.elements@[element as int].stopping_powers,
            Substance::Compound { compound } => data.compounds@[compound as int].stopping_powers,
        }
    }

    /// The substance's stopping-power curve for a species, if it has one.
    pub fn stopping_powers<'a>(&self, data: &'a SubstanceData, particle_type: ParticleType) -> (r:
        Option<&'a StoppingPower>)
        requires
            self.spec_wf(*data),
        ensures
            r matches Some(c) ==> spec_curve_for(self.spec_curveset(*data), particle_type)
                == Some(*c),
            r is None ==> spec_curve_for(self.spec_curveset(*data), particle_type) is None,
    {
        match self {
            Substance::Element { element, .. } => data.elements[*element].stopping_powers
                .curve_for(particle_type),
            Substance::Compound { compound } => data.compounds[*compound].stopping_powers
                .curve_for(particle_type),
        }
    }

    /// Whether the substance has curves for every tracked species.
    pub fn is_absorber(&self, data: &SubstanceData) -> (r: bool)
        requires
            self.spec_wf(*data),
        ensures
            r == self.spec_is_absorber(*data),
    {
        match self {
            Substance::Element { element, .. } => data.elements[*element].is_absorber,
            Substance::Compound { compound } => data.compounds[*compound].is_absorber,
        }
    }

    /// The absorber flag the catalog records for the substance.
    pub open spec fn spec_is_absorber(self, data: SubstanceData) -> bool {
        match self {
            Substance::Element { element, .. } => data.elements@[element as int].is_absorber,
            Substance::Compound { compound } => data.compounds@[compound as int].is_absorber,
        }
    }

    /// The isotope an element substance selects.
    pub open spec fn spec_isotope(self, data: SubstanceData) -> Isotope
        recommends
            self.spec_wf(data),
            self is Element,
    {
        data.elements@[self->element as int].isotopes@[self->isotope as int]
    }
}

/// An element is well-formed when its curves are well-formed, its density
/// is inside the accepted bound, and every isotope's decay energy fits the
/// kinematics converters.
pub open spec fn spec_element_wf(e: Element) -> bool {
    &&& e.stopping_powers.wf()
    &&& e.density <= MAX_DENSITY
    &&& forall|i: int|
        0 <= i < e.isotopes@.len() ==> (#[trigger] e.isotopes@[i]).decay.decay_energy
            <= MAX_PARTICLE_ENERGY
}

/// Per-element source soundness: every usable isotope carries a supported
/// decay class and a derived activity.
pub open spec fn spec_element_sources_wf(e: Element) -> bool {
    forall|j: int|
        0 <= j < e.isotopes@.len() ==> ((#[trigger] e.isotopes@[j]).is_usable
            ==> spec_classify_decay(e.isotopes@[j].decay.decay_type) is Some
            && e.isotopes@[j].activity is Some)
}

/// A compound is well-formed when its curves are and its density is inside
/// the accepted bound.
pub open spec fn spec_compound_wf(c: Compound) -> bool {
    &&& c.stopping_powers.wf()
    &&& c.density <= MAX_DENSITY
}

impl SubstanceData {
    /// Catalog well-formedness: every curve of every substance is non-empty
    /// and ascending, every decay energy fits the kinematics converters, and
    /// the radiator and absorber lists point into the catalog.
    pub open spec fn spec_wf(self) -> bool {
        &&& forall|i: int| 0 <= i < self.elements@.len() ==> spec_element_wf(
            #[trigger] self.elements@[i],
        )
        &&& forall|i: int| 0 <= i < self.compounds@.len() ==> spec_compound_wf(
            #[trigger] self.compounds@[i],
        )
        &&& forall|i: int| 0 <= i < self.radiators@.len() ==> (#[trigger] self.radiators@[i])
            .spec_wf(self)
        &&& forall|i: int| 0 <= i < self.absorbers@.len() ==> (#[trigger] self.absorbers@[i])
            .spec_wf(self)
    }

    /// Source soundness of the catalog: every usable isotope has a
    /// supported decay class and a derived activity, so that malformed
    /// source data is rejected when the catalog is built, never during
    /// simulation.
    pub open spec fn spec_sources_wf(self) -> bool {
        forall|i: int|
            0 <= i < self.elements@.len() ==> spec_element_sources_wf(#[trigger] self.elements@[i])
    }

    /// The structured acceptance check of the catalog: rejects malformed
    /// data (an empty or unordered curve, a decay energy beyond the
    /// converters, a usable isotope with an unsupported decay class or
    /// without an activity) instead of letting it reach the physics.
    pub fn validate(&self) -> (r: bool)
        ensures
            r == (self.spec_wf() && self.spec_sources_wf()),
    {
        let ne = self.elements.len();
        let mut i: usize = 0;
        while i < ne
            invariant
                0 <= i <= ne,
                ne == self.elements@.len(),
                forall|p: int| 0 <= p < i ==> spec_element_wf(#[trigger] self.elements@[p]),
                forall|p: int| 0 <= p < i ==> spec_element_sources_wf(#[trigger] self.elements@[p]),
            decreases ne - i,
        {
            let e = &self.elements[i];
            if !e.stopping_powers.check_wf() {
                return false;
            }
            if e.density > MAX_DENSITY {
                return false;
            }
            let ni = e.isotopes.len();
            let mut j: usize = 0;
            while j < ni
                invariant
                    0 <= j <= ni,
                    ni == e.isotopes@.len(),
                    i < self.elements@.len(),
                    *e == self.elements@[i as int],
                    forall|q: int|
                        0 <= q < j ==> (#[trigger] e.isotopes@[q]).decay.decay_energy
                            <= MAX_PARTICLE_ENERGY,
                    forall|q: int|
                        0 <= q < j ==> ((#[trigger] e.isotopes@[q]).is_usable
                            ==> spec_classify_decay(e.isotopes@[q].decay.decay_type) is Some
                            && e.isotopes@[q].activity is Some),
                decreases ni - j,
            {
                if e.isotopes[j].decay.decay_energy > MAX_PARTICLE_ENERGY {
                    assert(!spec_element_wf(self.elements@[i as int]));
                    return false;
                }
                if e.isotopes[j].is_usable {
                    if classify_decay(e.isotopes[j].decay.decay_type).is_none()
                        || e.isotopes[j].activity.is_none() {
                        assert(!spec_element_sources_wf(self.elements@[i as int]));
                        return false;
                    }
                }
                j = j + 1;
            }
            i = i + 1;
        }
        let nc = self.compounds.len();
        let mut i2: usize = 0;
        while i2 < nc
            invariant
                0 <= i2 <= nc,
                nc == self.compounds@.len(),
                forall|p: int| 0 <= p < self.elements@.len() ==> spec_element_wf(
                    #[trigger] self.elements@[p],
                ) && spec_element_sources_wf(self.elements@[p]),
                forall|p: int| 0 <= p < i2 ==> spec_compound_wf(#[trigger] self.compounds@[p]),
            decreases nc - i2,
        {
            if !self.compounds[i2].stopping_powers.check_wf()
                || self.compounds[i2].density > MAX_DENSITY {
                return false;
            }
            i2 = i2 + 1;
        }
        let nr = self.radiators.len();
        let mut i3: usize = 0;
        while i3 < nr
            invariant
                0 <= i3 <= nr,
                nr == self.radiators@.len(),
                forall|p: int| 0 <= p < self.elements@.len() ==> spec_element_wf(
                    #[trigger] self.elements@[p],
                ) && spec_element_sources_wf(self.elements@[p]),
                forall|p: int| 0 <= p < self.compounds@.len() ==> spec_compound_wf(
                    #[trigger] self.compounds@[p],
                ),
                forall|p: int| 0 <= p < i3 ==> (#[trigger] self.radiators@[p]).spec_wf(*self),
            decreases nr - i3,
        {
            if !self.substance_in_bounds(&self.radiators[i3]) {
                return false;
            }
            i3 = i3 + 1;
        }
        let na = self.absorbers.len();
        let mut i4: usize = 0;
        while i4 < na
            invariant
                0 <= i4 <= na,
                na == self.absorbers@.len(),
                forall|p: int| 0 <= p < self.elements@.len() ==> spec_element_wf(
                    #[trigger] self.elements@[p],
                ) && spec_element_sources_wf(self.elements@[p]),
                forall|p: int| 0 <= p < self.compounds@.len() ==> spec_compound_wf(
                    #[trigger] self.compounds@[p],
                ),
                forall|p: int| 0 <= p < self.radiators@.len() ==> (#[trigger] self.radiators@[p])
                    .spec_wf(*self),
                forall|p: int| 0 <= p < i4 ==> (#[trigger] self.absorbers@[p]).spec_wf(*self),
            decreases na - i4,
        {
            if !self.substance_in_bounds(&self.absorbers[i4]) {
                return false;
            }
            i4 = i4 + 1;
        }
        true
    }

    /// Whether a substance's indices point into this catalog.
    pub fn substance_in_bounds(&self, s: &Substance) -> (r: bool)
        ensures
            r == s.spec_wf(*self),
    {
        match s {
            Substance::Element { element, isotope } => *element < self.elements.len() && *isotope
                < self.elements[*element].isotopes.len(),
            Substance::Compound { compound } => *compound < self.compounds.len(),
        }
    }
}

/// The radiator substances contributed by one element's isotopes: one per
/// usable isotope, in isotope order.
pub open spec fn spec_iso_radiators(isos: Seq<Isotope>, ei: int) -> Seq<Substance>
    decreases isos.len(),
{
    if isos.len() == 0 {
        Seq::empty()
    } else {
        let rest = spec_iso_radiators(isos.drop_last(), ei);
        if isos.last().is_usable {
            rest.push(
                Substance::Element { element: ei as usize, isotope: (isos.len() - 1) as usize },
            )
        } else {
            rest
        }
    }
}

/// The radiator substances of a catalog's elements, in element order.
pub open spec fn spec_radiators(es: Seq<Element>) -> Seq<Substance>
    decreases es.len(),
{
    if es.len() == 0 {
        Seq::empty()
    } else {
        spec_radiators(es.drop_last()) + spec_iso_radiators(
            es.last().isotopes@,
            es.len() - 1,
        )
    }
}

/// The index of the most abundant isotope; among equals, the last one.
pub open spec fn spec_most_abundant(isos: Seq<Isotope>) -> int
    recommends
        isos.len() > 0,
    decreases isos.len(),
{
    if isos.len() <= 1 {
        0
    } else {
        let r = spec_most_abundant(isos.drop_last());
        if isos.last().abundance >= isos[r].abundance {
            isos.len() - 1
        } else {
            r
        }
    }
}

/// The absorber substances contributed by elements: one per absorbing
/// element with at least one isotope, selecting its most abundant isotope.
pub open spec fn spec_element_absorbers(es: Seq<Element>) -> Seq<Substance>
    decreases es.len(),
{
    if es.len() == 0 {
        Seq::empty()
    } else {
        let rest = spec_element_absorbers(es.drop_last());
        let e = es.last();
        if e.is_absorber && e.isotopes@.len() > 0 {
            rest.push(
                Substance::Element {
                    element: (es.len() - 1) as usize,
                    isotope: spec_most_abundant(e.isotopes@) as usize,
                },
            )
        } else {
            rest
        }
    }
}

/// The absorber substances contributed by compounds.
pub open spec fn spec_compound_absorbers(cs: Seq<Compound>) -> Seq<Substance>
    decreases cs.len(),
{
    if cs.len() == 0 {
        Seq::empty()
    } else {
        let rest = spec_compound_absorbers(cs.drop_last());
        if cs.last().is_absorber {
            rest.push(Substance::Compound { compound: (cs.len() - 1) as usize })
        } else {
            rest
        }
    }
}

/// Finds the most abundant isotope of a non-empty isotope list; among
/// equals, the last one.
pub fn most_abundant_isotope(isos: &Vec<Isotope>) -> (r: usize)
    requires
        isos@.len() > 0,
    ensures
        r == spec_most_abundant(isos@),
        r < isos@.len(),
{
    let n = isos.len();
    let mut best: usize = 0;
    let mut i: usize = 1;
    while i < n
        invariant
            1 <= i <= n,
            n == isos@.len(),
            best < i,
            best == spec_most_abundant(isos@.subrange(0, i as int)),
        decreases n - i,
    {
        proof {
            assert(isos@.subrange(0, i + 1 as int).drop_last() =~= isos@.subrange(0, i as int));
            assert(isos@.subrange(0, i + 1 as int).last() == isos@[i as int]);
            assert(isos@.subrange(0, i + 1 as int)[best as int] == isos@[best as int]);
        }
        if isos[i].abundance >= isos[best].abundance {
            best = i;
        }
        i = i + 1;
    }
    proof {
        assert(isos@.subrange(0, n as int) =~= isos@);
    }
    best
}

/// Assembles the catalog from built elements and compounds: derives the
/// radiator list (every usable isotope) and the absorber list (every
/// absorbing element by its most abundant isotope, then every absorbing
/// compound).
pub fn read_data(elements: Vec<Element>, compounds: Vec<Compound>) -> (data: SubstanceData)
    ensures
        data.elements == elements,
        data.compounds == compounds,
        data.radiators@ == spec_radiators(elements@),
        data.absorbers@ == spec_element_absorbers(elements@) + spec_compound_absorbers(
            compounds@,
        ),
{
    let mut radiators: Vec<Substance> = Vec::new();
    let ne = elements.len();
    let mut i: usize = 0;
    while i < ne
        invariant
            0 <= i <= ne,
            ne == elements@.len(),
            radiators@ == spec_radiators(elements@.subrange(0, i as int)),
        decreases ne - i,
    {
        proof {
            assert(elements@.subrange(0, i + 1 as int).drop_last() =~= elements@.subrange(
                0,
                i as int,
            ));
            assert(elements@.subrange(0, i + 1 as int).last() == elements@[i as int]);
        }
        let isos = &elements[i].isotopes;
        let ni = isos.len();
        let mut j: usize = 0;
        while j < ni
            invariant
                0 <= j <= ni,
                ni == isos@.len(),
                isos@ == elements@[i as int].isotopes@,
                i < elements@.len(),
                radiators@ == spec_radiators(elements@.subrange(0, i as int))
                    + spec_iso_radiators(isos@.subrange(0, j as int), i as int),
            decreases ni - j,
        {
            proof {
                assert(isos@.subrange(0, j + 1 as int).drop_last() =~= isos@.subrange(0, j as int));
                assert(isos@.subrange(0, j + 1 as int).last() == isos@[j as int]);
            }
            if isos[j].is_usable {
                radiators.push(Substance::Element { element: i, isotope: j });
            }
            j = j + 1;
        }
        proof {
            assert(isos@.subrange(0, ni as int) =~= isos@);
        }
        i = i + 1;
    }
    proof {
        assert(elements@.subrange(0, ne as int) =~= elements@);
    }

    let mut absorbers: Vec<Substance> = Vec::new();
    let mut i2: usize = 0;
    while i2 < ne
        invariant
            0 <= i2 <= ne,
            ne == elements@.len(),
            absorbers@ == spec_element_absorbers(elements@.subrange(0, i2 as int)),
        decreases ne - i2,
    {
        proof {
            assert(elements@.subrange(0, i2 + 1 as int).drop_last() =~= elements@.subrange(
                0,
                i2 as int,
            ));
            assert(elements@.subrange(0, i2 + 1 as int).last() == elements@[i2 as int]);
        }
        if elements[i2].is_absorber && elements[i2].isotopes.len() > 0 {
            let best = most_abundant_isotope(&elements[i2].isotopes);
            absorbers.push(Substance::Element { element: i2, isotope: best });
        }
        i2 = i2 + 1;
    }
    proof {
        assert(elements@.subrange(0, ne as int) =~= elements@);
    }

    let nc = compounds.len();
    let mut i3: usize = 0;
    while i3 < nc
        invariant
            0 <= i3 <= nc,
            nc == compounds@.len(),
            absorbers@ == spec_element_absorbers(elements@) + spec_compound_absorbers(
                compounds@.subrange(0, i3 as int),
            ),
        decreases nc - i3,
    {
        proof {
            assert(compounds@.subrange(0, i3 + 1 as int).drop_last() =~= compounds@.subrange(
                0,
                i3 as int,
            ));
            assert(compounds@.subrange(0, i3 + 1 as int).last() == compounds@[i3 as int]);
        }
        if compounds[i3].is_absorber {
            absorbers.push(Substance::Compound { compound: i3 });
        }
        i3 = i3 + 1;
    }
    proof {
        assert(compounds@.subrange(0, nc as int) =~= compounds@);
    }

    SubstanceData { elements, compounds, radiators, absorbers }
}

} // verus!
