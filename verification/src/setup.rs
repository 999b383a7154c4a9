//! The beginning of a game: two shuffled decks, two opening hands, and the
//! choice of the player who moves first.

use rand::rngs::StdRng;
use vstd::prelude::*;

use crate::actions::trainers::draw_cards;
use crate::actions::trainers::drawn_times;
use crate::rng::flip_coin;
use crate::rng::shuffle_cards;
use crate::state::Deck;
use crate::state::DeckView;
use crate::state::State;
use crate::state::StateView;

verus! {

/// The number of cards in an opening hand.
pub const OPENING_HAND: u8 = 5;

impl State {
    /// The state at the beginning of setup, given the two decks as they
    /// are after shuffling and the player who moves first: each player has
    /// drawn an opening hand from the top of their deck, and nothing else
    /// has happened.
    pub open spec fn opening(deck_a: DeckView, deck_b: DeckView, first: usize) -> StateView {
        let start = StateView { decks: seq![deck_a, deck_b], ..State::empty_view() };
        StateView {
            current_player: first,
            ..drawn_times(drawn_times(start, 0, OPENING_HAND as int), 1, OPENING_HAND as int)
        }
    }

    /// Deals the opening hands from two decks, without shuffling, and
    /// names the player who moves first.
    pub fn deal(deck_a: &Deck, deck_b: &Deck, first: usize) -> (state: State)
        requires
            first < 2,
        ensures
            state@ == State::opening(deck_a@, deck_b@, first),
            state@.wf(),
    {
        let mut state = State::new(deck_a, deck_b);
        draw_cards(&mut state, 0, OPENING_HAND);
        draw_cards(&mut state, 1, OPENING_HAND);
        state.current_player = first;
        state
    }

    /// Whether a deck holds the same cards as another, each as often, and
    /// generates the same energy.
    pub open spec fn is_shuffled(shuffled: DeckView, deck: DeckView) -> bool {
        shuffled.cards.to_multiset() == deck.cards.to_multiset() && shuffled.energy_types
            == deck.energy_types
    }

    /// Begins a game: a coin names the player who moves first, both decks
    /// are shuffled, and the opening hands are dealt.
    ///
    /// Whatever the random source does, the state is the opening of some
    /// shuffle of each deck with one of the two players moving first.
    pub fn initialize(deck_a: &Deck, deck_b: &Deck, rng: &mut StdRng) -> (state: State)
        ensures
            state@.wf(),
            exists|shuffled_a: DeckView, shuffled_b: DeckView, first: usize|
                State::is_shuffled(shuffled_a, deck_a@) && State::is_shuffled(shuffled_b, deck_b@)
                    && first < 2 && state@ == #[trigger] State::opening(
                    shuffled_a,
                    shuffled_b,
                    first,
                ),
    {
        let first: usize = if flip_coin(rng) {
            0
        } else {
            1
        };
        let mut shuffled_a = deck_a.clone();
        let mut shuffled_b = deck_b.clone();
        shuffle_cards(rng, &mut shuffled_a.cards);
        shuffle_cards(rng, &mut shuffled_b.cards);
        let state = State::deal(&shuffled_a, &shuffled_b, first);
        proof {
            assert(State::is_shuffled(shuffled_a@, deck_a@));
            assert(State::is_shuffled(shuffled_b@, deck_b@));
        }
        state
    }
}

} // verus!
