//! The shell's one source of randomness: choosing between the fixed
//! fallback destinations.

use rand::Rng;
use vstd::prelude::*;

verus! {

/// Relies on `rand::thread_rng` and `Rng::gen_range` over `0..n`: the range
/// is non-empty because `n` is positive, and the draw lies within it.
/// Nothing more is assumed of the draw; callers must cover every outcome
/// below `n`.
#[verifier::external_body]
pub fn random_below(n: usize) -> (r: usize)
    requires
        n >= 1,
    ensures
        r < n,
{
    rand::thread_rng().gen_range(0..n)
}

} // verus!
