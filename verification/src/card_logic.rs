//! Rules about how cards relate to each other.

use vstd::prelude::*;

use crate::models::card::Card;
use crate::models::card::CardView;
use crate::models::played_card::PlayedCard;
use crate::models::played_card::PlayedCardView;
use crate::text::str_eq;

verus! {

/// Whether `card` can evolve `in_play` directly, skipping the middle stage:
/// `card` is a stage 2 creature, `in_play` is the basic creature at the root
/// of its lineage, and `in_play` did not enter play this turn.
pub open spec fn rare_candy_evolves(card: CardView, in_play: PlayedCardView) -> bool {
    &&& card matches CardView::Pokemon(top)
    &&& in_play.card matches CardView::Pokemon(base)
    &&& top.stage == 2
    &&& base.stage == 0
    &&& !in_play.played_this_turn
    &&& top.basic_form == Some(base.name)
}

/// Executable form of [`rare_candy_evolves`].
pub fn can_rare_candy_evolve(card: &Card, in_play: &PlayedCard) -> (ok: bool)
    ensures
        ok == rare_candy_evolves(card@, in_play@),
{
    match (card, &in_play.card) {
        (Card::Pokemon(top), Card::Pokemon(base)) => {
            if top.stage != 2 || base.stage != 0 || in_play.played_this_turn {
                return false;
            }
            match &top.basic_form {
                Some(root) => str_eq(root.as_str(), base.name.as_str()),
                None => false,
            }
        },
        _ => false,
    }
}

} // verus!
