//! Integer helpers: floor square root, clamped signed addition, sums of
//! sequences, and a fixed-point negative exponential.

use vstd::prelude::*;

use crate::constants::PPM;
use vstd::arithmetic::power2::{pow2, lemma2_to64, lemma_pow2_strictly_increases, lemma_pow2_unfold};

verus! {

/// The floor of the square root of `x`.
pub open spec fn spec_isqrt(x: nat) -> nat
    decreases x,
{
    if x == 0 {
        0
    } else {
        let r = spec_isqrt((x - 1) as nat);
        if (r + 1) * (r + 1) <= x {
            r + 1
        } else {
            r
        }
    }
}

/// `spec_isqrt(x)` really is the floor of the square root of `x`.
pub proof fn lemma_isqrt_bounds(x: nat)
    ensures
        spec_isqrt(x) * spec_isqrt(x) <= x,
        x < (spec_isqrt(x) + 1) * (spec_isqrt(x) + 1),
    decreases x,
{
    if x > 0 {
        let r = spec_isqrt((x - 1) as nat);
        lemma_isqrt_bounds((x - 1) as nat);
        if (r + 1) * (r + 1) <= x {
            assert(spec_isqrt(x) == r + 1);
            assert(x == (r + 1) * (r + 1));
            assert((r + 2) * (r + 2) > (r + 1) * (r + 1)) by (nonlinear_arith);
        } else {
            assert(spec_isqrt(x) == r);
        }
    } else {
        assert(spec_isqrt(0) == 0);
        assert(spec_isqrt(x) * spec_isqrt(x) <= x) by (nonlinear_arith)
            requires spec_isqrt(x) == 0, x == 0nat,
        ;
        assert(x < (spec_isqrt(x) + 1) * (spec_isqrt(x) + 1)) by (nonlinear_arith)
            requires spec_isqrt(x) == 0, x == 0nat,
        ;
    }
}

/// Any `r` with `r^2 <= x < (r+1)^2` equals `spec_isqrt(x)`.
pub proof fn lemma_isqrt_unique(x: nat, r: nat)
    requires
        r * r <= x,
        x < (r + 1) * (r + 1),
    ensures
        r == spec_isqrt(x),
{
    let s = spec_isqrt(x);
    lemma_isqrt_bounds(x);
    if r < s {
        assert((r + 1) * (r + 1) <= s * s) by (nonlinear_arith)
            requires r + 1 <= s,
        ;
    }
    if s < r {
        assert((s + 1) * (s + 1) <= r * r) by (nonlinear_arith)
            requires s + 1 <= r,
        ;
    }
}

/// Floor square root of a 128-bit integer, by binary search.
pub fn isqrt(x: u128) -> (r: u64)
    ensures
        r as nat == spec_isqrt(x as nat),
        (r as nat) * (r as nat) <= x as nat,
        (x as nat) < (r as nat + 1) * (r as nat + 1),
{
    let mut lo: u128 = 0;
    let mut hi: u128 = 0x1_0000_0000_0000_0000;
    assert((x as nat) < (hi as nat) * (hi as nat)) by (nonlinear_arith)
        requires hi == 0x1_0000_0000_0000_0000u128, x <= u128::MAX,
    ;
    while lo + 1 < hi
        invariant
            lo < hi <= 0x1_0000_0000_0000_0000u128,
            (lo as nat) * (lo as nat) <= x as nat,
            (x as nat) < (hi as nat) * (hi as nat),
        decreases hi - lo,
    {
        let mid: u128 = lo + (hi - lo) / 2;
        assert((mid as nat) * (mid as nat) <= u128::MAX as nat) by (nonlinear_arith)
            requires mid < 0x1_0000_0000_0000_0000u128,
        ;
        if mid * mid <= x {
            lo = mid;
        } else {
            hi = mid;
        }
    }
    proof {
        lemma_isqrt_unique(x as nat, lo as nat);
    }
    lo as u64
}

/// Product of two `u64` values, exact in 128 bits.
pub fn mul_u64(a: u64, b: u64) -> (r: u128)
    ensures
        r == (a as nat) * (b as nat),
        a >= 1 && b >= 1 ==> r >= 1,
{
    proof {
        assert((a as nat) * (b as nat) <= (u64::MAX as nat) * (u64::MAX as nat))
            by (nonlinear_arith)
            requires
                a <= u64::MAX,
                b <= u64::MAX,
        ;
        assert((u64::MAX as nat) * (u64::MAX as nat) < u128::MAX as nat) by (nonlinear_arith);
        if a >= 1 && b >= 1 {
            assert((a as nat) * (b as nat) >= 1) by (nonlinear_arith)
                requires
                    a >= 1,
                    b >= 1,
            ;
        }
    }
    (a as u128) * (b as u128)
}

/// Signed addition clamped to the `i64` range.
pub open spec fn spec_add_clamped(a: int, b: int) -> int {
    if a + b > i64::MAX {
        i64::MAX as int
    } else if a + b < i64::MIN {
        i64::MIN as int
    } else {
        a + b
    }
}

/// Adds two coordinates, saturating at the edge of the representable space.
pub fn add_clamped(a: i64, b: i64) -> (r: i64)
    ensures
        r == spec_add_clamped(a as int, b as int),
{
    let s: i128 = a as i128 + b as i128;
    if s > i64::MAX as i128 {
        i64::MAX
    } else if s < i64::MIN as i128 {
        i64::MIN
    } else {
        s as i64
    }
}

/// Sum of a sequence of integers.
pub open spec fn sum_seq(s: Seq<int>) -> int
    decreases s.len(),
{
    if s.len() == 0 {
        0
    } else {
        sum_seq(s.drop_last()) + s.last()
    }
}

/// A sequence of `n` copies of `q` sums to `n * q`.
pub proof fn lemma_sum_constant(s: Seq<int>, q: int)
    requires
        forall|i: int| 0 <= i < s.len() ==> s[i] == q,
    ensures
        sum_seq(s) == s.len() * q,
    decreases s.len(),
{
    if s.len() > 0 {
        lemma_sum_constant(s.drop_last(), q);
        assert(s.len() * q == (s.len() - 1) * q + q) by (nonlinear_arith);
    }
}

/// One factor of the fixed-point exponential: `PPM * e^(-2^j / PPM)`,
/// rounded to the nearest integer, for each bit position `j` of the argument.
pub open spec fn spec_exp_factor(j: nat) -> nat {
    if j == 0 { 999_999 }
    else if j == 1 { 999_998 }
    else if j == 2 { 999_996 }
    else if j == 3 { 999_992 }
    else if j == 4 { 999_984 }
    else if j == 5 { 999_968 }
    else if j == 6 { 999_936 }
    else if j == 7 { 999_872 }
    else if j == 8 { 999_744 }
    else if j == 9 { 999_488 }
    else if j == 10 { 998_977 }
    else if j == 11 { 997_954 }
    else if j == 12 { 995_912 }
    else if j == 13 { 991_841 }
    else if j == 14 { 983_749 }
    else if j == 15 { 967_763 }
    else if j == 16 { 936_565 }
    else if j == 17 { 877_155 }
    else if j == 18 { 769_400 }
    else if j == 19 { 591_977 }
    else if j == 20 { 350_436 }
    else if j == 21 { 122_806 }
    else if j == 22 { 15_081 }
    else if j == 23 { 227 }
    else { 0 }
}

/// Looks one exponential factor up by bit position.
pub fn exp_factor(j: u64) -> (r: u64)
    ensures
        r == spec_exp_factor(j as nat),
{
    if j == 0 { 999_999 }
    else if j == 1 { 999_998 }
    else if j == 2 { 999_996 }
    else if j == 3 { 999_992 }
    else if j == 4 { 999_984 }
    else if j == 5 { 999_968 }
    else if j == 6 { 999_936 }
    else if j == 7 { 999_872 }
    else if j == 8 { 999_744 }
    else if j == 9 { 999_488 }
    else if j == 10 { 998_977 }
    else if j == 11 { 997_954 }
    else if j == 12 { 995_912 }
    else if j == 13 { 991_841 }
    else if j == 14 { 983_749 }
    else if j == 15 { 967_763 }
    else if j == 16 { 936_565 }
    else if j == 17 { 877_155 }
    else if j == 18 { 769_400 }
    else if j == 19 { 591_977 }
    else if j == 20 { 350_436 }
    else if j == 21 { 122_806 }
    else if j == 22 { 15_081 }
    else if j == 23 { 227 }
    else { 0 }
}

/// Accumulates the bit-by-bit product of exponential factors: starting from
/// `r`, multiplies in `spec_exp_factor(j)` for every set bit of `y`.
pub open spec fn spec_exp_product(r: nat, y: nat, j: nat) -> nat
    decreases y,
{
    if y == 0 {
        r
    } else {
        let r2 = if y % 2 == 1 { r * spec_exp_factor(j) / (PPM as nat) } else { r };
        spec_exp_product(r2, y / 2, j + 1)
    }
}

/// The product never grows: each factor is at most one whole.
pub proof fn lemma_exp_product_bound(r: nat, y: nat, j: nat)
    requires
        r <= PPM,
    ensures
        spec_exp_product(r, y, j) <= r,
    decreases y,
{
    if y != 0 {
        let r2 = if y % 2 == 1 { r * spec_exp_factor(j) / (PPM as nat) } else { r };
        assert(r * spec_exp_factor(j) <= r * (PPM as nat)) by (nonlinear_arith)
            requires spec_exp_factor(j) <= PPM,
        ;
        assert(r * (PPM as nat) / (PPM as nat) == r) by (nonlinear_arith)
            requires PPM > 0,
        ;
        assert(r * spec_exp_factor(j) / (PPM as nat) <= r * (PPM as nat) / (PPM as nat)) by (nonlinear_arith)
            requires r * spec_exp_factor(j) <= r * (PPM as nat), PPM > 0,
        ;
        lemma_exp_product_bound(r2, y / 2, j + 1);
    }
}

/// `PPM * e^(-x/PPM)`, computed in fixed point: the product of the tabulated
/// factors for the set bits of `x`, or zero once the true value rounds below
/// one part per million.
pub open spec fn spec_exp_neg(x: nat) -> nat {
    if x >= 0x100_0000 {
        0
    } else {
        spec_exp_product(PPM as nat, x, 0)
    }
}

/// Fixed-point `e^(-x/PPM)` at PPM scale.
pub fn exp_neg(x: u64) -> (r: u64)
    ensures
        r == spec_exp_neg(x as nat),
        r <= PPM,
        x == 0 ==> r == PPM,
{
    proof {
        lemma_exp_product_bound(PPM as nat, x as nat, 0);
    }
    if x >= 0x100_0000 {
        return 0;
    }
    let mut r: u64 = PPM;
    let mut y: u64 = x;
    let mut j: u64 = 0;
    proof {
        lemma2_to64();
        assert((x as nat) * pow2(0) == x as nat) by (nonlinear_arith)
            requires pow2(0) == 1,
        ;
    }
    while y > 0
        invariant
            r <= PPM,
            x < 0x100_0000,
            (y as nat) * pow2(j as nat) <= x as nat,
            spec_exp_product(PPM as nat, x as nat, 0) == spec_exp_product(
                r as nat,
                y as nat,
                j as nat,
            ),
        decreases y,
    {
        proof {
            lemma_exp_product_bound(r as nat, y as nat, j as nat);
            lemma2_to64();
            if j >= 24 {
                if j > 24 {
                    lemma_pow2_strictly_increases(24, j as nat);
                }
                assert(pow2(j as nat) <= (y as nat) * pow2(j as nat)) by (nonlinear_arith)
                    requires y >= 1,
                ;
            }
            assert(j < 24);
            lemma_pow2_unfold((j + 1) as nat);
            assert(((y / 2) as nat) * pow2((j + 1) as nat) <= (y as nat) * pow2(j as nat))
                by (nonlinear_arith)
                requires pow2((j + 1) as nat) == 2 * pow2(j as nat),
            ;
        }
        if y % 2 == 1 {
            let f = exp_factor(j);
            assert(r * f <= PPM * PPM) by (nonlinear_arith)
                requires r <= PPM, f <= PPM,
            ;
            assert((r as nat) * (f as nat) / (PPM as nat) <= r as nat) by (nonlinear_arith)
                requires f <= PPM, 0 < PPM,
            ;
            r = ((r as u128 * f as u128) / PPM as u128) as u64;
        }
        y = y / 2;
        j = j + 1;
    }
    r
}

} // verus!
