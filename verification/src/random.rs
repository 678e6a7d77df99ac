//! Uniform random numbers from the thread-local generator of `rand`.
use vstd::prelude::*;
use rand::Rng;

verus! {

/// A uniformly random integer in `lo..hi` from `rand::thread_rng().gen_range`.
/// Trusted: the result lies in the range; which value comes out is chance.
#[verifier::external_body]
pub fn random_in_range(lo: u64, hi: u64) -> (r: u64)
    requires
        lo < hi,
    ensures
        lo <= r < hi,
{
    rand::thread_rng().gen_range(lo..hi)
}

} // verus!
