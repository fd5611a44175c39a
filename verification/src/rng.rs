//! The library's single source of randomness. Nothing is assumed of an
//! outcome beyond its range: every caller states what holds whatever value
//! comes back.

use vstd::prelude::*;
use rand::Rng;

verus! {

/// Relies on rand's `thread_rng` and `Rng::gen_range` over `0..n`: a value
/// uniformly drawn from `[0, n)`; panics only on an empty range, which the
/// precondition rules out.
#[verifier::external_body]
pub(crate) fn rand_below(n: i64) -> (r: i64)
    requires
        0 < n,
    ensures
        0 <= r < n,
{
    rand::thread_rng().gen_range(0..n)
}

} // verus!
