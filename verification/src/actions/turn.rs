//! The end of a turn and the beginning of the next.

use vstd::prelude::*;

use crate::actions::knockout::check_knockouts;
use crate::actions::knockout::judge;
use crate::actions::knockout::judged;
use crate::actions::knockout::knock_out_all;
use crate::actions::knockout::promotions_requested;
use crate::actions::knockout::request_promotions;
use crate::models::card::EnergyType;
use crate::models::played_card::damaged;
use crate::models::played_card::decayed;
use crate::models::played_card::PlayedCardView;
use crate::state::GameOutcome;
use crate::state::State;
use crate::state::StateView;
use crate::state::TURN_LIMIT;

verus! {

/// The damage that a poisoned creature takes at the end of every turn.
pub const POISON_DAMAGE: u32 = 10;

/// A card after the end of a turn: poison has done its damage, timed
/// effects have lost a turn or expired, and the per-turn flags are reset.
/// Status conditions themselves stay.
pub open spec fn after_turn_end(card: PlayedCardView) -> PlayedCardView {
    PlayedCardView {
        remaining_hp: if card.poisoned {
            damaged(card.remaining_hp, POISON_DAMAGE)
        } else {
            card.remaining_hp
        },
        effects: decayed(card.effects),
        played_this_turn: false,
        ability_used: false,
        ..card
    }
}

/// A card after `n` ends of turns in a row.
pub open spec fn after_turn_ends(card: PlayedCardView, n: nat) -> PlayedCardView
    decreases n,
{
    if n == 0 {
        card
    } else {
        after_turn_end(after_turn_ends(card, (n - 1) as nat))
    }
}

/// Poison ticking: a poisoned card that is neither healed nor cured loses
/// the poison damage at the end of every turn, down to zero, and stays
/// poisoned. Its maximum health does not change.
pub proof fn lemma_poison_ticks(card: PlayedCardView, n: nat)
    requires
        card.poisoned,
    ensures
        after_turn_ends(card, n).poisoned,
        after_turn_ends(card, n).total_hp == card.total_hp,
        after_turn_ends(card, n).remaining_hp == if card.remaining_hp >= POISON_DAMAGE * n {
            card.remaining_hp - POISON_DAMAGE * n
        } else {
            0
        },
    decreases n,
{
    if n > 0 {
        lemma_poison_ticks(card, (n - 1) as nat);
    }
}

/// The state after the card in one slot has gone through the end of a
/// turn.
pub open spec fn tick_slot(state: StateView, player: int, idx: int) -> StateView {
    match state.in_play(player, idx) {
        Some(card) => state.set_slot(player, idx, Some(after_turn_end(card))),
        None => state,
    }
}

/// The state after the cards in the first `n` slots of the board have gone
/// through the end of a turn.
pub open spec fn tick_upto(state: StateView, n: int) -> StateView
    decreases n,
{
    if n <= 0 {
        state
    } else {
        tick_slot(tick_upto(state, n - 1), (n - 1) / 4, (n - 1) % 4)
    }
}

/// The state after every card in play has gone through the end of a turn.
pub open spec fn tick_all(state: StateView) -> StateView {
    tick_upto(state, 8)
}

/// Takes the card in one slot through the end of a turn.
pub fn end_turn_for_slot(state: &mut State, player: usize, idx: usize)
    requires
        player < 2,
        idx < 4,
        old(state)@.wf(),
    ensures
        final(state)@ == tick_slot(old(state)@, player as int, idx as int),
        final(state)@.wf(),
{
    match &mut state.in_play_pokemon[player][idx] {
        Some(card) => {
            if card.poisoned {
                card.apply_damage(POISON_DAMAGE);
            }
            card.end_turn_maintenance();
        },
        None => {},
    }
    proof {
        let want = tick_slot(old(state)@, player as int, idx as int);
        assert(state@.in_play_pokemon[player as int] =~= want.in_play_pokemon[player as int]);
        assert(state@.in_play_pokemon =~= want.in_play_pokemon);
    }
}

/// Takes every card in play through the end of a turn.
pub fn end_turn_for_all(state: &mut State)
    requires
        old(state)@.wf(),
    ensures
        final(state)@ == tick_all(old(state)@),
        final(state)@.wf(),
{
    let mut k: usize = 0;
    while k < 8
        invariant
            k <= 8,
            state@.wf(),
            state@ == tick_upto(old(state)@, k as int),
        decreases 8 - k,
    {
        end_turn_for_slot(state, k / 4, k % 4);
        k += 1;
    }
}

/// The state after a player has drawn the top card of their deck. With an
/// empty deck nothing is drawn.
pub open spec fn drawn(state: StateView, player: int) -> StateView {
    let cards = state.decks[player].cards;
    if cards.len() == 0 {
        state
    } else {
        let s1 = state.set_deck_cards(player, cards.drop_last());
        s1.set_hand(player, s1.hands[player].push(cards.last()))
    }
}

/// Draws the top card of a player's deck.
pub fn draw_card(state: &mut State, player: usize)
    requires
        player < 2,
        old(state)@.wf(),
    ensures
        final(state)@ == drawn(old(state)@, player as int),
        final(state)@.wf(),
{
    match state.take_top_of_deck(player) {
        Some(card) => {
            state.add_to_hand(player, card);
        },
        None => {},
    }
}

/// The energy that a player gets for a turn: one of the types that the
/// player's deck generates, picked by `pick`. A pick outside the list
/// stands for the first type; a deck that generates nothing gives nothing.
pub open spec fn turn_energy(state: StateView, player: int, pick: usize) -> Option<EnergyType> {
    let types = state.decks[player].energy_types;
    if types.len() == 0 {
        None
    } else if pick < types.len() {
        Some(types[pick as int])
    } else {
        Some(types[0])
    }
}

/// The state at the beginning of the next turn: the turn count is one
/// higher, the other player is to move with the per-turn flags reset, has
/// energy to attach from the second turn on, and has drawn a card. A game
/// without a winner that reaches the turn limit is a tie.
pub open spec fn next_turn_begun(state: StateView, pick: usize) -> StateView {
    let next = StateView::opponent(state.current_player as int);
    let turn: u8 = if state.turn_count == 255 {
        255
    } else {
        (state.turn_count + 1) as u8
    };
    drawn(
        StateView {
            turn_count: turn,
            current_player: next as usize,
            has_played_support: false,
            has_retreated: false,
            current_energy: if turn >= 2 {
                turn_energy(state, next, pick)
            } else {
                None
            },
            winner: if state.winner.is_none() && turn >= TURN_LIMIT {
                Some(GameOutcome::Tie)
            } else {
                state.winner
            },
            ..state
        },
        next,
    )
}

/// Begins the next turn.
pub fn begin_next_turn(state: &mut State, pick: usize)
    requires
        old(state)@.wf(),
    ensures
        final(state)@ == next_turn_begun(old(state)@, pick),
        final(state)@.wf(),
{
    let next = (state.current_player + 1) % 2;
    let turn: u8 = if state.turn_count == 255 {
        255
    } else {
        state.turn_count + 1
    };
    let energy = if turn >= 2 {
        let types = &state.decks[next].energy_types;
        if types.len() == 0 {
            None
        } else if pick < types.len() {
            Some(types[pick])
        } else {
            Some(types[0])
        }
    } else {
        None
    };
    state.turn_count = turn;
    state.current_player = next;
    state.has_played_support = false;
    state.has_retreated = false;
    state.current_energy = energy;
    if state.winner.is_none() && turn >= TURN_LIMIT {
        state.winner = Some(GameOutcome::Tie);
    }
    draw_card(state, next);
}

/// Whether the end of the current turn only hands setup over to the other
/// player: the game is in setup and the other player has no active
/// creature yet.
pub open spec fn setup_continues(state: StateView) -> bool {
    state.turn_count == 0 && state.active(StateView::opponent(state.current_player as int)).is_none()
}

/// The state after the player to move has ended the turn.
///
/// During setup, while the other player has not placed an active creature,
/// it is that player's turn to set up. Otherwise every card in play goes
/// through the end of the turn, knockouts are resolved, the next turn
/// begins, the outcome of the game is recorded, and a player left without an
/// active creature is asked to promote one.
pub open spec fn turn_ended(state: StateView, pick: usize) -> StateView {
    if setup_continues(state) {
        StateView {
            current_player: StateView::opponent(state.current_player as int) as usize,
            ..state
        }
    } else {
        promotions_requested(judged(next_turn_begun(knock_out_all(tick_all(state)), pick)))
    }
}

/// Ends the turn of the player to move.
pub fn end_turn(state: &mut State, pick: usize)
    requires
        old(state)@.wf(),
    ensures
        final(state)@ == turn_ended(old(state)@, pick),
        final(state)@.wf(),
{
    let other = (state.current_player + 1) % 2;
    let other_is_set_up = state.in_play_pokemon[other][0].is_some();
    assert(other_is_set_up == state@.active(other as int).is_some());
    if state.turn_count == 0 && !other_is_set_up {
        state.current_player = other;
        return ;
    }
    end_turn_for_all(state);
    check_knockouts(state);
    begin_next_turn(state, pick);
    judge(state);
    request_promotions(state);
}

} // verus!
