use rand::Rng;
use rand::rngs::ThreadRng;
use vstd::prelude::*;

verus! {

/// The random number generator of the current thread, handed in by the caller.
#[verifier::external_type_specification]
#[verifier::external_body]
pub struct ExThreadRng(ThreadRng);

/// Draws a number of `low..=high` with `rand::Rng::random_range`.
/// Its documentation promises a value of the given range and panics only on an
/// empty range, which `requires` rules out; which value comes back is chance,
/// so nothing more is claimed.
#[verifier::external_body]
pub(crate) fn random_in_range(rng: &mut ThreadRng, low: u64, high: u64) -> (r: u64)
    requires
        low <= high,
    ensures
        low <= r <= high,
{
    rng.random_range(low..=high)
}

} // verus!
