//! The one source of chance in the game.

use vstd::prelude::*;

verus! {

/// Tosses a fair coin.
///
/// This calls `rand::rng()` for the generator of the current thread and
/// `rand::Rng::random_ratio(1, 2)` on it, which is `true` with a chance of
/// one in two. Nothing is claimed of the outcome: two tosses may differ, and
/// callers hold for either.
#[verifier::external_body]
pub(crate) fn coin_flip() -> (heads: bool) {
    rand::Rng::random_ratio(&mut rand::rng(), 1, 2)
}

} // verus!
