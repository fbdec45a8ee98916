//! Weighted material mixtures and their resolution to one substance.

use vstd::prelude::*;

use crate::constants::PPM;
use crate::data_reading::{Substance, SubstanceData};
use crate::math::mul_u64;
use crate::rng::rand_below;

pub mod presets;

verus! {

/// A volume's composition: an ordered list of `(weight, substance)` pairs,
/// the weights in ppm.  The weights are treated as a cumulative distribution
/// when resolving; a well-formed mixture's weights sum to one whole.
#[derive(Debug, Clone)]
pub struct MaterialData {
    pub parts: Vec<(u64, Substance)>,
}

/// The sum of the weights of a mixture.
pub open spec fn spec_total_weight(parts: Seq<(u64, Substance)>) -> int
    decreases parts.len(),
{
    if parts.len() == 0 {
        0
    } else {
        spec_total_weight(parts.drop_last()) + parts.last().0
    }
}

/// The substance a draw resolves to: walk the list, and return the first
/// part whose weight exceeds what is left of the draw; the last part catches
/// any remainder.
pub open spec fn spec_resolve(parts: Seq<(u64, Substance)>, draw: int) -> Substance
    recommends
        parts.len() > 0,
    decreases parts.len(),
{
    if parts.len() <= 1 || parts[0].0 > draw {
        parts[0].1
    } else {
        spec_resolve(parts.drop_first(), draw - parts[0].0)
    }
}

impl MaterialData {
    /// A mixture is well-formed for a catalog when it is non-empty, its
    /// weights sum to one whole, and every part's substance points into the
    /// catalog.
    pub open spec fn wf(self, data: SubstanceData) -> bool {
        &&& self.parts@.len() > 0
        &&& spec_total_weight(self.parts@) == PPM
        &&& forall|i: int|
            0 <= i < self.parts@.len() ==> (#[trigger] self.parts@[i]).1.spec_wf(data)
    }

    /// Resolves a draw to a substance: returns the first part whose
    /// cumulative weight exceeds the draw, or the last part when the draw
    /// lies at or beyond the total weight.
    pub fn resolve(&self, draw: u64) -> (s: Substance)
        requires
            self.parts@.len() > 0,
        ensures
            s == spec_resolve(self.parts@, draw as int),
    {
        let n = self.parts.len();
        let mut i: usize = 0;
        let mut rem: u64 = draw;
        proof {
            assert(self.parts@.skip(0) =~= self.parts@);
        }
        while i < n - 1
            invariant
                0 <= i < n,
                n == self.parts@.len(),
                spec_resolve(self.parts@, draw as int) == spec_resolve(
                    self.parts@.skip(i as int),
                    rem as int,
                ),
            decreases n - i,
        {
            proof {
                assert(self.parts@.skip(i as int).drop_first() =~= self.parts@.skip(i + 1 as int));
                assert(self.parts@.skip(i as int)[0] == self.parts@[i as int]);
            }
            let part = self.parts[i];
            if part.0 > rem {
                return part.1;
            }
            rem = rem - part.0;
            i = i + 1;
        }
        proof {
            assert(self.parts@.skip(i as int)[0] == self.parts@[i as int]);
        }
        self.parts[n - 1].1
    }

    /// Resolves the mixture with a fresh uniform draw over one whole.  The
    /// result is always one of the mixture's own substances under some draw
    /// below the total weight.
    pub fn pick_substance(&self) -> (s: Substance)
        requires
            self.parts@.len() > 0,
            spec_total_weight(self.parts@) == PPM,
        ensures
            exists|d: u64| d < PPM && s == spec_resolve(self.parts@, d as int),
    {
        let draw = rand_below(PPM);
        let s = self.resolve(draw);
        proof {
            assert(draw < PPM && s == spec_resolve(self.parts@, draw as int));
        }
        s
    }

    /// Accumulated `weight * density` over the parts of a mixture.
    pub open spec fn spec_weighted_density(
        parts: Seq<(u64, Substance)>,
        data: SubstanceData,
    ) -> int
        decreases parts.len(),
    {
        if parts.len() == 0 {
            0
        } else {
            Self::spec_weighted_density(parts.drop_last(), data) + (parts.last().0 as int)
                * (parts.last().1.spec_density(data) as int)
        }
    }

    /// The weighted densities are bounded by the total weight times the
    /// largest density.
    proof fn lemma_weighted_density_bound(parts: Seq<(u64, Substance)>, data: SubstanceData)
        ensures
            0 <= Self::spec_weighted_density(parts, data) <= spec_total_weight(parts) * (
            u64::MAX as int),
        decreases parts.len(),
    {
        if parts.len() == 0 {
            assert(spec_total_weight(parts) * (u64::MAX as int) == 0) by (nonlinear_arith)
                requires
                    spec_total_weight(parts) == 0,
            ;
        } else {
            Self::lemma_weighted_density_bound(parts.drop_last(), data);
            let w = parts.last().0 as int;
            let d = parts.last().1.spec_density(data) as int;
            assert(w * d <= w * (u64::MAX as int)) by (nonlinear_arith)
                requires
                    0 <= w,
                    0 <= d <= u64::MAX as int,
            ;
            assert(0 <= w * d) by (nonlinear_arith)
                requires
                    0 <= w,
                    0 <= d,
            ;
            assert((spec_total_weight(parts.drop_last()) + w) * (u64::MAX as int)
                == spec_total_weight(parts.drop_last()) * (u64::MAX as int) + w * (
            u64::MAX as int)) by (nonlinear_arith);
        }
    }

    /// The weighted mean density of the mixture in mg/m^3: the sum of
    /// `weight * density` over the parts, divided by one whole (the weights
    /// are assumed normalized).
    pub fn average_density(&self, data: &SubstanceData) -> (r: u64)
        requires
            spec_total_weight(self.parts@) <= PPM,
            forall|i: int|
                0 <= i < self.parts@.len() ==> (#[trigger] self.parts@[i]).1.spec_wf(*data),
        ensures
            r == Self::spec_weighted_density(self.parts@, *data) / (PPM as int),
    {
        let n = self.parts.len();
        let mut acc: u128 = 0;
        let mut i: usize = 0;
        while i < n
            invariant
                0 <= i <= n,
                n == self.parts@.len(),
                forall|p: int|
                    0 <= p < self.parts@.len() ==> (#[trigger] self.parts@[p]).1.spec_wf(*data),
                acc == Self::spec_weighted_density(self.parts@.subrange(0, i as int), *data),
                acc <= spec_total_weight(self.parts@.subrange(0, i as int)) * (u64::MAX as int),
                spec_total_weight(self.parts@) <= PPM,
            decreases n - i,
        {
            proof {
                assert(self.parts@.subrange(0, i + 1 as int).drop_last() =~= self.parts@.subrange(
                    0,
                    i as int,
                ));
                assert(self.parts@.subrange(0, i + 1 as int).last() == self.parts@[i as int]);
                Self::lemma_weighted_density_bound(self.parts@.subrange(0, i + 1 as int), *data);
                lemma_total_weight_prefix(self.parts@, i + 1 as int);
                assert(spec_total_weight(self.parts@.subrange(0, i + 1 as int)) * (
                u64::MAX as int) <= (PPM as int) * (u64::MAX as int)) by (nonlinear_arith)
                    requires
                        spec_total_weight(self.parts@.subrange(0, i + 1 as int)) <= PPM as int,
                ;
            }
            let part = self.parts[i];
            let w = part.0;
            let d = part.1.density(data);
            acc = acc + mul_u64(w, d);
            i = i + 1;
        }
        proof {
            assert(self.parts@.subrange(0, n as int) =~= self.parts@);
            Self::lemma_weighted_density_bound(self.parts@, *data);
            assert(spec_total_weight(self.parts@) * (u64::MAX as int) <= (PPM as int) * (
            u64::MAX as int)) by (nonlinear_arith)
                requires
                    spec_total_weight(self.parts@) <= PPM as int,
            ;
            assert(acc / (PPM as u128) <= u64::MAX) by (nonlinear_arith)
                requires
                    acc <= (PPM as int) * (u64::MAX as int),
                    PPM >= 1,
            ;
        }
        (acc / (PPM as u128)) as u64
    }
}

/// The total weight of a prefix never exceeds the total weight of the whole
/// list.
pub proof fn lemma_total_weight_prefix(parts: Seq<(u64, Substance)>, k: int)
    requires
        0 <= k <= parts.len(),
    ensures
        spec_total_weight(parts.subrange(0, k)) <= spec_total_weight(parts),
    decreases parts.len() - k,
{
    if k < parts.len() {
        lemma_total_weight_prefix(parts, k + 1);
        assert(parts.subrange(0, k + 1).drop_last() =~= parts.subrange(0, k));
        assert(parts.subrange(0, k + 1).last() == parts[k]);
    } else {
        assert(parts.subrange(0, k) =~= parts);
    }
}

} // verus!
