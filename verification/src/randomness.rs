//! Thin trusted boundary around the `rand` crate: the library draws every
//! random decision through the small wrappers here, and verified code then
//! works with the plain values that come back.

use vstd::prelude::*;
use rand::Rng;

verus! {

#[verifier::external_type_specification]
#[verifier::external_body]
pub struct ExThreadRng(rand::rngs::ThreadRng);

pub assume_specification[ rand::thread_rng ]() -> (r: rand::rngs::ThreadRng);

/// Relies on rand's `Rng::gen_range` on an `i64` half-open range: the sample
/// is uniformly distributed within the range; the call panics only when the
/// range is empty.
#[verifier::external_body]
pub(crate) fn rng_range_i64(rng: &mut rand::rngs::ThreadRng, lo: i64, hi: i64) -> (r: i64)
    requires
        lo < hi,
    ensures
        lo <= r < hi,
{
    rng.gen_range(lo..hi)
}

/// Relies on rand's `Rng::gen_range` on a `usize` range starting at zero: the
/// sample is uniformly distributed in `[0, n)`; the call panics only when the
/// range is empty.
#[verifier::external_body]
pub(crate) fn rng_index(rng: &mut rand::rngs::ThreadRng, n: usize) -> (r: usize)
    requires
        n > 0,
    ensures
        r < n,
{
    rng.gen_range(0..n)
}

/// Relies on rand's `Rng::gen_ratio`: the result is `true` with probability
/// `num / den`; the call panics only when `den == 0` or `num > den`. Nothing
/// is promised of a single random outcome.
#[verifier::external_body]
pub(crate) fn rng_ratio(rng: &mut rand::rngs::ThreadRng, num: u32, den: u32) -> (r: bool)
    requires
        0 < den,
        num <= den,
{
    rng.gen_ratio(num, den)
}

} // verus!
