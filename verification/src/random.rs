//! The one place where chance enters the library.

use rand::Rng;
use vstd::prelude::*;

verus! {

/// Draws one number below `bound` from the thread-local generator of the
/// `rand` crate: `rand::thread_rng()` followed by `Rng::gen_range(0..bound)`.
///
/// Trusted, not proved: the number drawn lies in `0..bound`. `gen_range`
/// panics on an empty range, which `bound > 0` rules out. Nothing is said
/// about which number comes, so callers are verified for every outcome.
#[verifier::external_body]
pub(crate) fn random_below(bound: u32) -> (r: u32)
    requires
        bound > 0,
    ensures
        r < bound,
{
    rand::thread_rng().gen_range(0..bound)
}

} // verus!
