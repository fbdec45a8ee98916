//! Stopping-power and attenuation curves, and the rate lookup.
//!
//! A curve is a sequence of `(energy, rate)` samples ascending by energy.
//! The energy is in meV; the rate is in eV/m for charged particles and in
//! millionths of 1/m for photons.  The lookup returns the rate of the first
//! sample whose energy exceeds the query, or the last sample's rate when the
//! query lies at or beyond the end of the table (flat extrapolation).

use vstd::prelude::*;

verus! {

/// A stopping-power or attenuation curve: `(energy, rate)` samples.
pub type StoppingPower = Vec<(u64, u64)>;

/// The index of the first sample whose energy strictly exceeds `energy`, or
/// the length of the curve when no sample does.
pub open spec fn spec_first_above(s: Seq<(u64, u64)>, energy: u64) -> int
    decreases s.len(),
{
    if s.len() == 0 {
        0
    } else if s[0].0 > energy {
        0
    } else {
        1 + spec_first_above(s.drop_first(), energy)
    }
}

/// The rate the resolver returns for a query energy.
pub open spec fn spec_pick_rate(s: Seq<(u64, u64)>, energy: u64) -> u64
    recommends
        s.len() > 0,
{
    let i = spec_first_above(s, energy);
    if i < s.len() {
        s[i].1
    } else {
        s.last().1
    }
}

/// `spec_first_above` points at the first sample above the query: everything
/// before it is at or below the query, and the sample there (if any) is
/// above it.
pub proof fn lemma_first_above_characterization(s: Seq<(u64, u64)>, energy: u64)
    ensures
        0 <= spec_first_above(s, energy) <= s.len(),
        forall|j: int| 0 <= j < spec_first_above(s, energy) ==> s[j].0 <= energy,
        spec_first_above(s, energy) < s.len() ==> s[spec_first_above(s, energy)].0 > energy,
    decreases s.len(),
{
    if s.len() > 0 && s[0].0 <= energy {
        lemma_first_above_characterization(s.drop_first(), energy);
        assert(forall|j: int|
            1 <= j < s.len() ==> #[trigger] s[j] == s.drop_first()[j - 1]);
    }
}

/// Any index with the first-above characterization is `spec_first_above`.
pub proof fn lemma_first_above_unique(s: Seq<(u64, u64)>, energy: u64, i: int)
    requires
        0 <= i <= s.len(),
        forall|j: int| 0 <= j < i ==> s[j].0 <= energy,
        i < s.len() ==> s[i].0 > energy,
    ensures
        i == spec_first_above(s, energy),
{
    lemma_first_above_characterization(s, energy);
    let fa = spec_first_above(s, energy);
    if i < fa {
        assert(s[i].0 <= energy);
    } else if fa < i {
        assert(s[fa].0 <= energy);
    }
}

/// Looks up the energy-loss (or attenuation) rate for a query energy:
/// nearest-above sample, flat extrapolation past the end of the table.
pub fn pick_stopping_power(stopping_powers: &StoppingPower, energy: u64) -> (rate: u64)
    requires
        stopping_powers@.len() > 0,
    ensures
        rate == spec_pick_rate(stopping_powers@, energy),
{
    let ghost s = stopping_powers@;
    let n = stopping_powers.len();
    let mut i: usize = 0;
    while i < n
        invariant
            0 <= i <= n,
            n == s.len(),
            s == stopping_powers@,
            forall|j: int| 0 <= j < i ==> s[j].0 <= energy,
        decreases n - i,
    {
        let sample = stopping_powers[i];
        if sample.0 > energy {
            proof {
                lemma_first_above_unique(s, energy, i as int);
            }
            return sample.1;
        }
        i = i + 1;
    }
    proof {
        lemma_first_above_unique(s, energy, s.len() as int);
    }
    stopping_powers[n - 1].1
}

/// A curve is well-formed when it is non-empty and ascending by energy.
pub open spec fn spec_curve_wf(s: Seq<(u64, u64)>) -> bool {
    &&& s.len() > 0
    &&& forall|i: int, j: int| 0 <= i < j < s.len() ==> s[i].0 <= s[j].0
}

/// Checks that a curve is non-empty and ascending by energy.
pub fn curve_is_wf(curve: &StoppingPower) -> (r: bool)
    ensures
        r == spec_curve_wf(curve@),
{
    let n = curve.len();
    if n == 0 {
        return false;
    }
    let mut i: usize = 1;
    while i < n
        invariant
            1 <= i <= n,
            n == curve@.len(),
            forall|p: int, q: int| 0 <= p < q < i ==> curve@[p].0 <= curve@[q].0,
        decreases n - i,
    {
        if curve[i - 1].0 > curve[i].0 {
            assert(!spec_curve_wf(curve@));
            return false;
        }
        assert(forall|p: int, q: int| 0 <= p < q < i + 1 ==> curve@[p].0 <= curve@[q].0) by {
            assert(forall|p: int| 0 <= p < i ==> #[trigger] curve@[p].0 <= curve@[i - 1].0);
        }
        i = i + 1;
    }
    true
}

} // verus!
