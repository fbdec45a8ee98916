//! Compounds: parsed rows and the build of the per-compound catalog
//! entries, whose curve tables are keyed by name rather than atomic number.

use vstd::prelude::*;

use crate::data_reading::{
    scale_curve, spec_curve_scaled, spec_has_name, spec_lookup_name, CurveSet,
    NamedCoefficientTable,
};
use crate::stopping::StoppingPower;

verus! {

/// A compound of the catalog: labels, density in mg/m^3, the stopping-power
/// curves for the tracked species, and whether curves exist for every one.
#[derive(Debug, Clone)]
pub struct Compound {
    pub symbol: String,
    pub name: String,
    pub density: u64,
    pub stopping_powers: CurveSet,
    pub is_absorber: bool,
}

/// A compound table row: labels, nucleon ratio in ppm, characteristic
/// energy in meV, density in mg/m^3.
#[derive(Debug, Clone, PartialEq, Eq)]
pub struct CompoundDataRow {
    pub symbol: String,
    pub name: String,
    pub nucleon_ratio: u64,
    pub energy: u64,
    pub density: u64,
}

/// Finds the first entry with the given name in a table keyed by name.
pub fn find_curve_name<'a>(tables: &'a NamedCoefficientTable, name: &String) -> (r: Option<
    &'a StoppingPower,
>)
    ensures
        r is Some <==> spec_has_name(tables@, name@),
        r matches Some(c) ==> c@ == spec_lookup_name(tables@, name@),
{
    let n = tables.len();
    let mut i: usize = 0;
    proof {
        assert(tables@.skip(0) =~= tables@);
    }
    while i < n
        invariant
            0 <= i <= n,
            n == tables@.len(),
            spec_has_name(tables@, name@) == spec_has_name(tables@.skip(i as int), name@),
            spec_lookup_name(tables@, name@) == spec_lookup_name(tables@.skip(i as int), name@),
        decreases n - i,
    {
        proof {
            assert(tables@.skip(i as int).drop_first() =~= tables@.skip(i + 1 as int));
            assert(tables@.skip(i as int)[0] == tables@[i as int]);
        }
        if tables[i].0 == *name {
            return Some(&tables[i].1);
        }
        i = i + 1;
    }
    proof {
        assert(tables@.skip(n as int).len() == 0);
    }
    None
}

/// What building a compound's curve set promises, the name-keyed twin of
/// the element version.
pub open spec fn spec_curveset_built_named(
    cs: CurveSet,
    alpha: Seq<(String, StoppingPower)>,
    electron: Seq<(String, StoppingPower)>,
    gamma: Seq<(String, StoppingPower)>,
    name: Seq<char>,
    density: u64,
) -> bool {
    &&& (cs.alpha is Some) == spec_has_name(alpha, name)
    &&& (cs.alpha matches Some(c) ==> spec_curve_scaled(c@, spec_lookup_name(alpha, name), density))
    &&& (cs.electron is Some) == spec_has_name(electron, name)
    &&& (cs.electron matches Some(c) ==> spec_curve_scaled(
        c@,
        spec_lookup_name(electron, name),
        density,
    ))
    &&& (cs.gamma is Some) == spec_has_name(gamma, name)
    &&& (cs.gamma matches Some(c) ==> spec_curve_scaled(c@, spec_lookup_name(gamma, name), density))
}

/// What `get_compounds` promises of each built compound.
pub open spec fn spec_compound_built(
    c: Compound,
    row: CompoundDataRow,
    alpha: Seq<(String, StoppingPower)>,
    electron: Seq<(String, StoppingPower)>,
    gamma: Seq<(String, StoppingPower)>,
) -> bool {
    &&& c.symbol@ == row.symbol@
    &&& c.name@ == row.name@
    &&& c.density == row.density
    &&& spec_curveset_built_named(c.stopping_powers, alpha, electron, gamma, row.name@, row.density)
    &&& c.is_absorber == (spec_has_name(alpha, row.name@) && spec_has_name(electron, row.name@)
        && spec_has_name(gamma, row.name@))
}

/// Builds the compound catalog from parsed compound rows and the three
/// per-species mass-coefficient tables keyed by compound name.
pub fn get_compounds(
    compound_rows: &Vec<CompoundDataRow>,
    alpha_tables: &NamedCoefficientTable,
    electron_tables: &NamedCoefficientTable,
    gamma_tables: &NamedCoefficientTable,
) -> (compounds: Vec<Compound>)
    ensures
        compounds@.len() == compound_rows@.len(),
        forall|i: int|
            0 <= i < compounds@.len() ==> spec_compound_built(
                #[trigger] compounds@[i],
                compound_rows@[i],
                alpha_tables@,
                electron_tables@,
                gamma_tables@,
            ),
{
    let mut compounds: Vec<Compound> = Vec::new();
    let n = compound_rows.len();
    let mut i: usize = 0;
    while i < n
        invariant
            0 <= i <= n,
            n == compound_rows@.len(),
            compounds@.len() == i,
            forall|p: int|
                0 <= p < i ==> spec_compound_built(
                    #[trigger] compounds@[p],
                    compound_rows@[p],
                    alpha_tables@,
                    electron_tables@,
                    gamma_tables@,
                ),
        decreases n - i,
    {
        let row = &compound_rows[i];
        let alpha = match find_curve_name(alpha_tables, &row.name) {
            Some(c) => Some(scale_curve(c, row.density)),
            None => None,
        };
        let electron = match find_curve_name(electron_tables, &row.name) {
            Some(c) => Some(scale_curve(c, row.density)),
            None => None,
        };
        let gamma = match find_curve_name(gamma_tables, &row.name) {
            Some(c) => Some(scale_curve(c, row.density)),
            None => None,
        };
        let is_absorber = alpha.is_some() && electron.is_some() && gamma.is_some();
        let compound = Compound {
            symbol: row.symbol.clone(),
            name: row.name.clone(),
            density: row.density,
            stopping_powers: CurveSet { alpha, electron, gamma },
            is_absorber,
        };
        compounds.push(compound);
        i = i + 1;
    }
    compounds
}

/// The vacuum compound: zero density, a single all-zero sample in every
/// curve, an absorber by construction.
pub fn vacuum_compound() -> (c: Compound)
    ensures
        c.symbol@ == "Vac"@,
        c.name@ == "Vakuum"@,
        c.density == 0,
        c.is_absorber,
        c.stopping_powers.alpha matches Some(curve) && curve@ == seq![(0u64, 0u64)],
        c.stopping_powers.electron matches Some(curve) && curve@ == seq![(0u64, 0u64)],
        c.stopping_powers.gamma matches Some(curve) && curve@ == seq![(0u64, 0u64)],
{
    let mut alpha: StoppingPower = Vec::new();
    alpha.push((0, 0));
    let mut electron: StoppingPower = Vec::new();
    electron.push((0, 0));
    let mut gamma: StoppingPower = Vec::new();
    gamma.push((0, 0));
    proof {
        assert(alpha@ =~= seq![(0u64, 0u64)]);
        assert(electron@ =~= seq![(0u64, 0u64)]);
        assert(gamma@ =~= seq![(0u64, 0u64)]);
    }
    Compound {
        symbol: "Vac".to_owned(),
        name: "Vakuum".to_owned(),
        density: 0,
        stopping_powers: CurveSet {
            alpha: Some(alpha),
            electron: Some(electron),
            gamma: Some(gamma),
        },
        is_absorber: true,
    }
}

} // verus!
