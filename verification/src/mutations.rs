//! The primitive changes to a game state, each with the exact change that it
//! makes to the state's view. Everything that the engine does to a state is
//! built from these.

use vstd::prelude::*;

use crate::actions::types::simple_actions_view;
use crate::actions::types::SimpleAction;
use crate::models::card::cards_view;
use crate::models::card::Card;
use crate::models::card::CardView;
use crate::models::card::EnergyType;
use crate::models::played_card::PlayedCard;
use crate::models::played_card::PlayedCardView;
use crate::state::slot_view;
use crate::state::DeckView;
use crate::state::PendingView;
use crate::state::State;
use crate::state::StateView;

verus! {

impl StateView {
    /// The state with one slot replaced.
    pub open spec fn set_slot(self, player: int, idx: int, slot: Option<PlayedCardView>) -> StateView {
        StateView {
            in_play_pokemon: self.in_play_pokemon.update(
                player,
                self.in_play_pokemon[player].update(idx, slot),
            ),
            ..self
        }
    }

    /// The state with one hand replaced.
    pub open spec fn set_hand(self, player: int, hand: Seq<CardView>) -> StateView {
        StateView { hands: self.hands.update(player, hand), ..self }
    }

    /// The state with the cards of one deck replaced.
    pub open spec fn set_deck_cards(self, player: int, cards: Seq<CardView>) -> StateView {
        StateView {
            decks: self.decks.update(player, DeckView { cards, ..self.decks[player] }),
            ..self
        }
    }

    /// The state with one discard pile replaced.
    pub open spec fn set_discard_pile(self, player: int, pile: Seq<CardView>) -> StateView {
        StateView { discard_piles: self.discard_piles.update(player, pile), ..self }
    }

    /// The state with the discarded energy of one player replaced.
    pub open spec fn set_discard_energies(self, player: int, energies: Seq<EnergyType>) -> StateView {
        StateView { discard_energies: self.discard_energies.update(player, energies), ..self }
    }

    /// The state with the points of one player replaced.
    pub open spec fn set_points(self, player: int, points: u8) -> StateView {
        StateView { points: self.points.update(player, points), ..self }
    }

    /// The state with one more pending decision, which becomes the most
    /// urgent one.
    pub open spec fn push_pending(self, pending: PendingView) -> StateView {
        StateView { move_generation_stack: self.move_generation_stack.push(pending), ..self }
    }

    /// The state without its most urgent pending decision.
    pub open spec fn pop_pending(self) -> StateView {
        if self.move_generation_stack.len() > 0 {
            StateView { move_generation_stack: self.move_generation_stack.drop_last(), ..self }
        } else {
            self
        }
    }
}

impl State {
    /// Replaces what a slot holds.
    pub fn put_slot(&mut self, player: usize, idx: usize, slot: Option<PlayedCard>)
        requires
            player < 2,
            idx < 4,
        ensures
            final(self)@ == old(self)@.set_slot(player as int, idx as int, slot_view(slot)),
    {
        self.in_play_pokemon[player][idx] = slot;
        proof {
            let want = old(self)@.set_slot(player as int, idx as int, slot_view(slot));
            assert(self@.in_play_pokemon[player as int] =~= want.in_play_pokemon[player as int]);
            assert(self@.in_play_pokemon =~= want.in_play_pokemon);
        }
    }

    /// Empties a slot and hands out what it held.
    pub fn take_slot(&mut self, player: usize, idx: usize) -> (slot: Option<PlayedCard>)
        requires
            player < 2,
            idx < 4,
        ensures
            slot_view(slot) == old(self)@.in_play(player as int, idx as int),
            final(self)@ == old(self)@.set_slot(player as int, idx as int, None),
    {
        let slot = self.in_play_pokemon[player][idx].take();
        proof {
            let want = old(self)@.set_slot(player as int, idx as int, None);
            assert(self@.in_play_pokemon[player as int] =~= want.in_play_pokemon[player as int]);
            assert(self@.in_play_pokemon =~= want.in_play_pokemon);
        }
        slot
    }

    /// Adds a card to a hand, after the cards already there.
    pub fn add_to_hand(&mut self, player: usize, card: Card)
        requires
            player < 2,
        ensures
            final(self)@ == old(self)@.set_hand(
                player as int,
                old(self)@.hands[player as int].push(card@),
            ),
    {
        self.hands[player].push(card);
        proof {
            let want = old(self)@.set_hand(
                player as int,
                old(self)@.hands[player as int].push(card@),
            );
            assert(self@.hands[player as int] =~= want.hands[player as int]);
            assert(self@.hands =~= want.hands);
        }
    }

    /// Removes the card at a position from a hand and hands it out.
    pub fn remove_from_hand(&mut self, player: usize, at: usize) -> (card: Card)
        requires
            player < 2,
            at < old(self)@.hands[player as int].len(),
        ensures
            card@ == old(self)@.hands[player as int][at as int],
            final(self)@ == old(self)@.set_hand(
                player as int,
                old(self)@.hands[player as int].remove(at as int),
            ),
    {
        let card = self.hands[player].remove(at);
        proof {
            let want = old(self)@.set_hand(
                player as int,
                old(self)@.hands[player as int].remove(at as int),
            );
            assert(self@.hands[player as int] =~= want.hands[player as int]);
            assert(self@.hands =~= want.hands);
        }
        card
    }

    /// Adds a card to a discard pile, after the cards already there.
    pub fn discard_card(&mut self, player: usize, card: Card)
        requires
            player < 2,
        ensures
            final(self)@ == old(self)@.set_discard_pile(
                player as int,
                old(self)@.discard_piles[player as int].push(card@),
            ),
    {
        self.discard_piles[player].push(card);
        proof {
            let want = old(self)@.set_discard_pile(
                player as int,
                old(self)@.discard_piles[player as int].push(card@),
            );
            assert(self@.discard_piles[player as int] =~= want.discard_piles[player as int]);
            assert(self@.discard_piles =~= want.discard_piles);
        }
    }

    /// Adds cards to a discard pile, after the cards already there.
    pub fn discard_cards(&mut self, player: usize, cards: Vec<Card>)
        requires
            player < 2,
        ensures
            final(self)@ == old(self)@.set_discard_pile(
                player as int,
                old(self)@.discard_piles[player as int] + cards_view(cards@),
            ),
    {
        let mut cards = cards;
        let ghost added = cards_view(cards@);
        self.discard_piles[player].append(&mut cards);
        proof {
            let want = old(self)@.set_discard_pile(
                player as int,
                old(self)@.discard_piles[player as int] + added,
            );
            assert(self@.discard_piles[player as int] =~= want.discard_piles[player as int]);
            assert(self@.discard_piles =~= want.discard_piles);
        }
    }

    /// Adds energies to the discarded energy of a player, after those
    /// already there.
    pub fn discard_energy(&mut self, player: usize, energies: Vec<EnergyType>)
        requires
            player < 2,
        ensures
            final(self)@ == old(self)@.set_discard_energies(
                player as int,
                old(self)@.discard_energies[player as int] + energies@,
            ),
    {
        let mut energies = energies;
        let ghost added = energies@;
        self.discard_energies[player].append(&mut energies);
        proof {
            let want = old(self)@.set_discard_energies(
                player as int,
                old(self)@.discard_energies[player as int] + added,
            );
            assert(self@.discard_energies =~= want.discard_energies);
        }
    }

    /// Removes the top card of a deck and hands it out. The top card is the
    /// last one.
    pub fn take_top_of_deck(&mut self, player: usize) -> (card: Option<Card>)
        requires
            player < 2,
        ensures
            old(self)@.decks[player as int].cards.len() == 0 ==> card.is_none() && final(self)@
                == old(self)@,
            old(self)@.decks[player as int].cards.len() > 0 ==> card.is_some() && card.unwrap()@
                == old(self)@.decks[player as int].cards.last() && final(self)@
                == old(self)@.set_deck_cards(
                player as int,
                old(self)@.decks[player as int].cards.drop_last(),
            ),
    {
        let card = self.decks[player].cards.pop();
        proof {
            if old(self)@.decks[player as int].cards.len() > 0 {
                let want = old(self)@.set_deck_cards(
                    player as int,
                    old(self)@.decks[player as int].cards.drop_last(),
                );
                assert(self@.decks[player as int].cards =~= want.decks[player as int].cards);
                assert(self@.decks =~= want.decks);
            } else {
                assert(self@.decks[player as int].cards =~= old(self)@.decks[player as int].cards);
                assert(self@.decks =~= old(self)@.decks);
            }
        }
        card
    }

    /// Removes the card at a position from a deck and hands it out.
    pub fn remove_from_deck(&mut self, player: usize, at: usize) -> (card: Card)
        requires
            player < 2,
            at < old(self)@.decks[player as int].cards.len(),
        ensures
            card@ == old(self)@.decks[player as int].cards[at as int],
            final(self)@ == old(self)@.set_deck_cards(
                player as int,
                old(self)@.decks[player as int].cards.remove(at as int),
            ),
    {
        let card = self.decks[player].cards.remove(at);
        proof {
            let want = old(self)@.set_deck_cards(
                player as int,
                old(self)@.decks[player as int].cards.remove(at as int),
            );
            assert(self@.decks[player as int].cards =~= want.decks[player as int].cards);
            assert(self@.decks =~= want.decks);
        }
        card
    }

    /// Sets the points of a player.
    pub fn put_points(&mut self, player: usize, points: u8)
        requires
            player < 2,
        ensures
            final(self)@ == old(self)@.set_points(player as int, points),
    {
        self.points[player] = points;
        proof {
            assert(self@.points =~= old(self)@.points.update(player as int, points));
        }
    }

    /// Adds a pending decision, which becomes the most urgent one.
    pub fn push_pending(&mut self, actor: usize, moves: Vec<SimpleAction>)
        ensures
            final(self)@ == old(self)@.push_pending((actor, simple_actions_view(moves@))),
    {
        self.move_generation_stack.push((actor, moves));
        proof {
            let want = old(self)@.push_pending((actor, simple_actions_view(moves@)));
            assert(self@.move_generation_stack =~= want.move_generation_stack);
        }
    }

    /// Removes the most urgent pending decision, if there is one.
    pub fn pop_pending(&mut self)
        ensures
            final(self)@ == old(self)@.pop_pending(),
    {
        let _ = self.move_generation_stack.pop();
        proof {
            let want = old(self)@.pop_pending();
            assert(self@.move_generation_stack =~= want.move_generation_stack);
        }
    }
}

} // verus!
