use vstd::prelude::*;
use rand::Rng;

verus! {

/// A number drawn uniformly from `0..n` by `rand::Rng::random_range` on the
/// thread-local generator `rand::rng()`. Claimed: the result lies in `0..n`
/// (`random_range` panics only on an empty range, which `n > 0` rules out).
/// Which number comes out rests on chance and is not stated.
#[verifier::external_body]
pub(crate) fn random_below(n: usize) -> (r: usize)
    requires
        n > 0,
    ensures
        r < n,
{
    rand::rng().random_range(0..n)
}

} // verus!
