use rand::Rng;
use vstd::prelude::*;

verus! {

/// Draws one fair coin from the thread-local generator of `rand`
/// (`rand::rng().random_ratio(1, 2)`). Nothing is claimed of the outcome.
#[verifier::external_body]
pub(crate) fn flip() -> (heads: bool) {
    rand::rng().random_ratio(1, 2)
}

} // verus!
