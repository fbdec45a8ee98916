//! Preset single-substance mixtures, looked up in the catalog by atomic
//! number and neutron count, or by compound name.

use vstd::prelude::*;

use crate::constants::PPM;
use crate::data_reading::{Substance, SubstanceData};
use crate::material::MaterialData;

verus! {

/// Whether the catalog holds an isotope with the given atomic number and
/// neutron count.
pub open spec fn spec_has_isotope(data: SubstanceData, z: usize, n: usize) -> bool {
    exists|ei: int, ii: int|
        0 <= ei < data.elements@.len() && 0 <= ii < data.elements@[ei].isotopes@.len()
            && data.elements@[ei].z == z && (#[trigger] data.elements@[ei].isotopes@[ii]).n == n
}

/// What a found isotope substance satisfies.
pub open spec fn spec_isotope_found(data: SubstanceData, z: usize, n: usize, s: Substance) -> bool {
    &&& s is Element
    &&& s.spec_wf(data)
    &&& data.elements@[s->element as int].z == z
    &&& data.elements@[s->element as int].isotopes@[s->isotope as int].n == n
}

/// Finds the substance selecting the first isotope with the given atomic
/// number and neutron count.
pub fn find_isotope(data: &SubstanceData, z: usize, n: usize) -> (r: Option<Substance>)
    ensures
        r is Some <==> spec_has_isotope(*data, z, n),
        r matches Some(s) ==> spec_isotope_found(*data, z, n, s),
{
    let ne = data.elements.len();
    let mut ei: usize = 0;
    while ei < ne
        invariant
            0 <= ei <= ne,
            ne == data.elements@.len(),
            forall|p: int, q: int|
                0 <= p < ei && 0 <= q < data.elements@[p].isotopes@.len() ==> !(
                data.elements@[p].z == z && (#[trigger] data.elements@[p].isotopes@[q]).n == n),
        decreases ne - ei,
    {
        if data.elements[ei].z == z {
            let isos = &data.elements[ei].isotopes;
            let ni = isos.len();
            let mut ii: usize = 0;
            while ii < ni
                invariant
                    0 <= ii <= ni,
                    ni == isos@.len(),
                    ei < data.elements@.len(),
                    isos@ == data.elements@[ei as int].isotopes@,
                    data.elements@[ei as int].z == z,
                    forall|q: int| 0 <= q < ii ==> (#[trigger] isos@[q]).n != n,
                decreases ni - ii,
            {
                if isos[ii].n == n {
                    let s = Substance::Element { element: ei, isotope: ii };
                    return Some(s);
                }
                ii = ii + 1;
            }
        }
        ei = ei + 1;
    }
    proof {
        assert(!spec_has_isotope(*data, z, n));
    }
    None
}

/// Whether the catalog holds a compound with the given name.
pub open spec fn spec_has_compound(data: SubstanceData, name: Seq<char>) -> bool {
    exists|ci: int|
        0 <= ci < data.compounds@.len() && (#[trigger] data.compounds@[ci]).name@ == name
}

/// What a found compound substance satisfies.
pub open spec fn spec_compound_found(data: SubstanceData, name: Seq<char>, s: Substance) -> bool {
    &&& s is Compound
    &&& s.spec_wf(data)
    &&& data.compounds@[s->compound as int].name@ == name
}

/// Finds the substance selecting the first compound with the given name.
pub fn find_compound(data: &SubstanceData, name: &String) -> (r: Option<Substance>)
    ensures
        r is Some <==> spec_has_compound(*data, name@),
        r matches Some(s) ==> spec_compound_found(*data, name@, s),
{
    let nc = data.compounds.len();
    let mut ci: usize = 0;
    while ci < nc
        invariant
            0 <= ci <= nc,
            nc == data.compounds@.len(),
            forall|p: int| 0 <= p < ci ==> (#[trigger] data.compounds@[p]).name@ != name@,
        decreases nc - ci,
    {
        if data.compounds[ci].name == *name {
            return Some(Substance::Compound { compound: ci });
        }
        ci = ci + 1;
    }
    None
}

/// What every single-substance preset promises: one part of full weight,
/// holding the given substance.
pub open spec fn spec_single_part(m: MaterialData, s: Substance) -> bool {
    &&& m.parts@.len() == 1
    &&& m.parts@[0].0 == PPM
    &&& m.parts@[0].1 == s
}

/// Wraps one substance as a full-weight mixture.
fn single_part(s: Substance) -> (m: MaterialData)
    ensures
        spec_single_part(m, s),
{
    let mut parts: Vec<(u64, Substance)> = Vec::new();
    parts.push((PPM, s));
    MaterialData { parts }
}

/// Tritium (hydrogen-3).
pub fn h3(data: &SubstanceData) -> (r: Option<MaterialData>)
    ensures
        r is Some <==> spec_has_isotope(*data, 1, 2),
        r matches Some(m) ==> spec_single_part(m, m.parts@[0].1) && spec_isotope_found(
            *data,
            1,
            2,
            m.parts@[0].1,
        ),
{
    match find_isotope(data, 1, 2) {
        Some(s) => {
            let m = single_part(s);
            proof {
                assert(m.parts@[0].1 == s);
            }
            Some(m)
        },
        None => None,
    }
}

/// Lead-208.
pub fn pb208(data: &SubstanceData) -> (r: Option<MaterialData>)
    ensures
        r is Some <==> spec_has_isotope(*data, 82, 126),
        r matches Some(m) ==> spec_single_part(m, m.parts@[0].1) && spec_isotope_found(
            *data,
            82,
            126,
            m.parts@[0].1,
        ),
{
    match find_isotope(data, 82, 126) {
        Some(s) => {
            let m = single_part(s);
            proof {
                assert(m.parts@[0].1 == s);
            }
            Some(m)
        },
        None => None,
    }
}

/// Lead-210.
pub fn pb210(data: &SubstanceData) -> (r: Option<MaterialData>)
    ensures
        r is Some <==> spec_has_isotope(*data, 82, 128),
        r matches Some(m) ==> spec_single_part(m, m.parts@[0].1) && spec_isotope_found(
            *data,
            82,
            128,
            m.parts@[0].1,
        ),
{
    match find_isotope(data, 82, 128) {
        Some(s) => {
            let m = single_part(s);
            proof {
                assert(m.parts@[0].1 == s);
            }
            Some(m)
        },
        None => None,
    }
}

/// Plutonium-239.
pub fn pu239(data: &SubstanceData) -> (r: Option<MaterialData>)
    ensures
        r is Some <==> spec_has_isotope(*data, 94, 145),
        r matches Some(m) ==> spec_single_part(m, m.parts@[0].1) && spec_isotope_found(
            *data,
            94,
            145,
            m.parts@[0].1,
        ),
{
    match find_isotope(data, 94, 145) {
        Some(s) => {
            let m = single_part(s);
            proof {
                assert(m.parts@[0].1 == s);
            }
            Some(m)
        },
        None => None,
    }
}

/// Air, as a catalog compound.
pub fn air(data: &SubstanceData) -> (r: Option<MaterialData>)
    ensures
        r is Some <==> spec_has_compound(*data, "Air"@),
        r matches Some(m) ==> spec_single_part(m, m.parts@[0].1) && spec_compound_found(
            *data,
            "Air"@,
            m.parts@[0].1,
        ),
{
    match find_compound(data, &"Air".to_owned()) {
        Some(s) => {
            let m = single_part(s);
            proof {
                assert(m.parts@[0].1 == s);
            }
            Some(m)
        },
        None => None,
    }
}

} // verus!
