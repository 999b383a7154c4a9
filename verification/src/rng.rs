//! The random source.
//!
//! Randomness comes from the `rand` crate. What its functions return is not
//! proved here: the contracts below state what the engine relies on, and
//! nothing more.

use rand::rngs::StdRng;
use rand::seq::SliceRandom;
use rand::Rng;
use rand::SeedableRng;
use vstd::prelude::*;

use crate::models::card::cards_view;
use crate::models::card::Card;

verus! {

/// The random source of the `rand` crate, `rand::rngs::StdRng`. What it
/// holds is not visible to contracts; it is only passed along.
#[verifier::external_type_specification]
#[verifier::external_body]
pub struct ExStdRng(StdRng);

/// A random source started from a seed, by `StdRng::seed_from_u64`.
/// Nothing is claimed of it.
#[verifier::external_body]
pub(crate) fn seeded_rng(seed: u64) -> (rng: StdRng) {
    StdRng::seed_from_u64(seed)
}

/// The flip of a coin, by `Rng::gen` for a `bool`. Nothing is claimed of
/// how it falls.
#[verifier::external_body]
pub(crate) fn flip_coin(rng: &mut StdRng) -> (heads: bool) {
    rng.gen()
}

/// A number below `n`, by `Rng::gen_range` on the range from 0 to `n`.
/// The claim is that the number lies in that range; which one it is depends
/// on the source. The range must not be empty.
#[verifier::external_body]
pub(crate) fn draw_below(rng: &mut StdRng, n: usize) -> (drawn: usize)
    requires
        n > 0,
    ensures
        drawn < n,
{
    rng.gen_range(0..n)
}

/// Reorders a list of cards in place, by `SliceRandom::shuffle`. The claim
/// is that the list holds the same cards as before, each as often as
/// before; in which order depends on the source.
#[verifier::external_body]
pub(crate) fn shuffle_cards(rng: &mut StdRng, cards: &mut Vec<Card>)
    ensures
        cards_view(final(cards)@).to_multiset() == cards_view(old(cards)@).to_multiset(),
{
    cards.shuffle(rng);
}

} // verus!
