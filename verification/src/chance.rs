//! Drawing numbers at random.

use vstd::prelude::*;
use rand::Rng;

verus! {

/// A number drawn by `rand`'s `Rng::gen_range` from the generator of the current
/// thread. The contract claims what the method documents: the number lies in the
/// half-open range from `low` to `high`. The method panics on an empty range,
/// which `requires` leaves out. Two draws from one range may differ.
#[verifier::external_body]
pub(crate) fn random_in_range(low: u64, high: u64) -> (drawn: u64)
    requires
        low < high,
    ensures
        low <= drawn < high,
{
    rand::thread_rng().gen_range(low, high)
}

} // verus!
