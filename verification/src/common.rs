//! Shared helpers: random numbers.
use vstd::prelude::*;
use rand::Rng;

verus! {

/// A random number in `from..to` (`rand::rng().random_range(from..to)`).
/// Trusted: the number lies in the range; which one is left to chance.
#[verifier::external_body]
pub fn random_number(from: i64, to: i64) -> (r: i64)
    requires
        from < to,
    ensures
        from <= r < to,
{
    let mut rng = rand::rng();
    rng.random_range(from..to)
}

} // verus!
