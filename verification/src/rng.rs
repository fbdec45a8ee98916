//! The engine's single source of randomness.
//!
//! Every sampling decision in the library is made by a verified function that
//! takes the drawn number as an argument; this module only produces the
//! draws.

use vstd::prelude::*;

verus! {

/// Relies on `fastrand::u64` with the range `0..n`: it returns a number drawn
/// from that half-open range, and panics only when the range is empty.
#[verifier::external_body]
pub fn rand_below(n: u64) -> (r: u64)
    requires
        n >= 1,
    ensures
        r < n,
{
    fastrand::u64(0..n)
}

} // verus!
