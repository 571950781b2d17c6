pub mod layout;

use vstd::prelude::*;

verus! {

/// Relies on rand's thread-local generator and `Rng::gen_range` over a
/// half-open integer range: the draw is some value at least `low` and
/// below `high`; the call panics on an empty range, which the
/// precondition rules out. Nothing more is assumed of the outcome.
#[verifier::external_body]
pub(crate) fn random_in_range(low: i64, high: i64) -> (r: i64)
    requires
        low < high,
    ensures
        low <= r < high,
{
    rand::Rng::gen_range(&mut rand::thread_rng(), low..high)
}

} // verus!
