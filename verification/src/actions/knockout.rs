//! What follows when health reaches zero: the card leaves play, the
//! opponent scores, the game may end, and a player left without an active
//! creature must promote one from the bench.

use vstd::prelude::*;

use crate::actions::types::simple_actions_view;
use crate::actions::types::SimpleAction;
use crate::actions::types::SimpleActionView;
use crate::models::card::cards_view;
use crate::models::played_card::PlayedCard;
use crate::slot_rules::any_slot_meets;
use crate::slot_rules::some_slot_meets;
use crate::slot_rules::SlotRule;
use crate::state::GameOutcome;
use crate::state::State;
use crate::state::StateView;
use crate::state::POINTS_TO_WIN;

verus! {

/// Points after scoring: the sum, or 255 where the sum would not fit.
pub open spec fn add_points(have: u8, scored: u8) -> u8 {
    if have + scored > 255 {
        255
    } else {
        (have + scored) as u8
    }
}

/// The state after the card in a slot has been knocked out, if its health
/// is zero: the slot is empty, the card and the forms under it lie on its
/// owner's discard pile, its energy is discarded, and the opponent has
/// scored. A card with health left stays.
pub open spec fn knock_out_slot(state: StateView, player: int, idx: int) -> StateView {
    match state.in_play(player, idx) {
        Some(card) => if card.remaining_hp == 0 {
            let other = StateView::opponent(player);
            let s1 = state.set_slot(player, idx, None);
            let s2 = s1.set_discard_pile(
                player,
                s1.discard_piles[player] + card.cards_behind.push(card.card),
            );
            let s3 = s2.set_discard_energies(
                player,
                s2.discard_energies[player] + card.attached_energy,
            );
            s3.set_points(other, add_points(s3.points[other], card.knockout_points()))
        } else {
            state
        },
        None => state,
    }
}

/// The state after the knockout check of the first `n` slots of the board,
/// counted through player 0's slots and then player 1's.
pub open spec fn knock_out_upto(state: StateView, n: int) -> StateView
    decreases n,
{
    if n <= 0 {
        state
    } else {
        knock_out_slot(knock_out_upto(state, n - 1), (n - 1) / 4, (n - 1) % 4)
    }
}

/// The state after the knockout check of every slot.
pub open spec fn knock_out_all(state: StateView) -> StateView {
    knock_out_upto(state, 8)
}

/// Knockouts leave the pending decisions, the turn and the outcome as they
/// are.
pub proof fn lemma_knock_out_keeps_the_rest(state: StateView, n: int)
    ensures
        knock_out_upto(state, n).move_generation_stack == state.move_generation_stack,
        knock_out_upto(state, n).current_player == state.current_player,
        knock_out_upto(state, n).turn_count == state.turn_count,
        knock_out_upto(state, n).winner == state.winner,
    decreases n,
{
    if n > 0 {
        lemma_knock_out_keeps_the_rest(state, n - 1);
    }
}

/// Checks one slot for a knockout.
pub fn check_knockout(state: &mut State, player: usize, idx: usize)
    requires
        player < 2,
        idx < 4,
        old(state)@.wf(),
    ensures
        final(state)@ == knock_out_slot(old(state)@, player as int, idx as int),
        final(state)@.wf(),
{
    let knocked_out = match &state.in_play_pokemon[player][idx] {
        Some(card) => {
            assert(state@.in_play(player as int, idx as int) == Some(card@));
            card.remaining_hp == 0
        },
        None => {
            assert(state@.in_play(player as int, idx as int).is_none());
            false
        },
    };
    if knocked_out {
        let slot = state.take_slot(player, idx);
        match slot {
            Some(played) => {
                let ghost view = played@;
                let points = played.get_knockout_points();
                let PlayedCard { card, cards_behind, attached_energy, .. } = played;
                let mut pile = cards_behind;
                pile.push(card);
                assert(cards_view(pile@) =~= view.cards_behind.push(view.card));
                state.discard_cards(player, pile);
                state.discard_energy(player, attached_energy);
                let other = (player + 1) % 2;
                let have = state.points[other];
                let total: u8 = if have > 255 - points {
                    255
                } else {
                    have + points
                };
                state.put_points(other, total);
            },
            None => {},
        }
    }
}

/// Checks every slot for a knockout.
pub fn check_knockouts(state: &mut State)
    requires
        old(state)@.wf(),
    ensures
        final(state)@ == knock_out_all(old(state)@),
        final(state)@.wf(),
{
    let mut k: usize = 0;
    while k < 8
        invariant
            k <= 8,
            state@.wf(),
            state@ == knock_out_upto(old(state)@, k as int),
        decreases 8 - k,
    {
        check_knockout(state, k / 4, k % 4);
        k += 1;
    }
}

/// Whether a player has lost: the opponent has the points to win, or the
/// player has no creature left in play.
pub open spec fn is_beaten(state: StateView, player: int) -> bool {
    state.points[StateView::opponent(player)] >= POINTS_TO_WIN || !some_slot_meets(
        state,
        player,
        0,
        SlotRule::Occupied,
    )
}

/// How the game stands. A game that has ended stays as it ended, and no
/// game ends during setup. Otherwise a player who is beaten loses, and the
/// game is a tie when both are.
pub open spec fn outcome(state: StateView) -> Option<GameOutcome> {
    if state.winner.is_some() || state.turn_count == 0 {
        state.winner
    } else if is_beaten(state, 0) && is_beaten(state, 1) {
        Some(GameOutcome::Tie)
    } else if is_beaten(state, 1) {
        Some(GameOutcome::Win(0))
    } else if is_beaten(state, 0) {
        Some(GameOutcome::Win(1))
    } else {
        None
    }
}

/// The state with the game's outcome recorded.
pub open spec fn judged(state: StateView) -> StateView {
    StateView { winner: outcome(state), ..state }
}

/// Executable form of [`is_beaten`].
fn beaten(state: &State, player: usize) -> (b: bool)
    requires
        player < 2,
    ensures
        b == is_beaten(state@, player as int),
{
    let other = (player + 1) % 2;
    state.points[other] >= POINTS_TO_WIN || !any_slot_meets(state, player, 0, SlotRule::Occupied)
}

/// Records the game's outcome.
pub fn judge(state: &mut State)
    requires
        old(state)@.wf(),
    ensures
        final(state)@ == judged(old(state)@),
        final(state)@.wf(),
{
    if state.winner.is_some() || state.turn_count == 0 {
        return ;
    }
    let beaten_0 = beaten(state, 0);
    let beaten_1 = beaten(state, 1);
    if beaten_0 && beaten_1 {
        state.winner = Some(GameOutcome::Tie);
    } else if beaten_1 {
        state.winner = Some(GameOutcome::Win(0));
    } else if beaten_0 {
        state.winner = Some(GameOutcome::Win(1));
    }
}

/// The moves that promote a benched card of a player from a slot below
/// `n`, in slot order.
pub open spec fn promotions_upto(state: StateView, player: int, n: int) -> Seq<SimpleActionView>
    decreases n,
{
    if n <= 1 {
        Seq::empty()
    } else {
        let rest = promotions_upto(state, player, n - 1);
        if state.in_play(player, n - 1).is_some() {
            rest.push(SimpleActionView::Activate { in_play_idx: (n - 1) as usize })
        } else {
            rest
        }
    }
}

/// The moves that promote a benched card of a player.
pub open spec fn promotions(state: StateView, player: int) -> Seq<SimpleActionView> {
    promotions_upto(state, player, 4)
}

/// The state after a player without an active creature has been asked to
/// promote one: the choice among the benched cards is pending. A player
/// with an active creature, or without a bench, is not asked, and nobody is
/// once the game has ended.
pub open spec fn promotion_requested(state: StateView, player: int) -> StateView {
    if state.winner.is_none() && state.active(player).is_none() && promotions(state, player).len()
        > 0 {
        state.push_pending((player as usize, promotions(state, player)))
    } else {
        state
    }
}

/// Both players asked in turn, the player to move last, so that this
/// player's promotion is the more urgent one.
pub open spec fn promotions_requested(state: StateView) -> StateView {
    let me = state.current_player as int;
    promotion_requested(promotion_requested(state, StateView::opponent(me)), me)
}

/// The promotions of a player depend on that player's slots alone.
pub proof fn lemma_promotions_read_the_slots(a: StateView, b: StateView, player: int, n: int)
    requires
        a.in_play_pokemon == b.in_play_pokemon,
    ensures
        promotions_upto(a, player, n) == promotions_upto(b, player, n),
    decreases n,
{
    if n > 1 {
        lemma_promotions_read_the_slots(a, b, player, n - 1);
    }
}

/// No active slot stays empty unnoticed: once both players have been
/// asked, a player without an active creature who has a bench, in a game
/// that is still going, has a promotion pending.
pub proof fn lemma_empty_active_slot_has_a_promotion_pending(state: StateView, player: int)
    requires
        state.current_player < 2,
        0 <= player < 2,
    ensures
        ({
            let after = promotions_requested(state);
            after.winner.is_none() && after.active(player).is_none() && promotions(
                after,
                player,
            ).len() > 0 ==> exists|k: int|
                0 <= k < after.move_generation_stack.len()
                    && #[trigger] after.move_generation_stack[k] == (
                    player as usize,
                    promotions(after, player),
                )
        }),
{
    let me = state.current_player as int;
    let other = StateView::opponent(me);
    let first = promotion_requested(state, other);
    let after = promotion_requested(first, me);
    assert(first.in_play_pokemon == state.in_play_pokemon);
    assert(after.in_play_pokemon == state.in_play_pokemon);
    lemma_promotions_read_the_slots(after, state, player, 4);
    lemma_promotions_read_the_slots(first, state, player, 4);
    if after.winner.is_none() && after.active(player).is_none() && promotions(after, player).len()
        > 0 {
        if player == me {
            let k = after.move_generation_stack.len() - 1;
            assert(after.move_generation_stack[k] == (player as usize, promotions(after, player)));
        } else {
            let k = first.move_generation_stack.len() - 1;
            assert(first.move_generation_stack[k] == (player as usize, promotions(after, player)));
            assert(after.move_generation_stack[k] == first.move_generation_stack[k]);
        }
    }
}

/// The moves that promote a benched card of a player.
pub fn promotion_moves(state: &State, player: usize) -> (moves: Vec<SimpleAction>)
    requires
        player < 2,
    ensures
        simple_actions_view(moves@) == promotions(state@, player as int),
{
    let mut moves: Vec<SimpleAction> = Vec::new();
    assert(simple_actions_view(moves@) =~= Seq::empty());
    let mut i: usize = 1;
    while i < 4
        invariant
            player < 2,
            1 <= i <= 4,
            simple_actions_view(moves@) == promotions_upto(state@, player as int, i as int),
        decreases 4 - i,
    {
        let occupied = state.in_play_pokemon[player][i].is_some();
        assert(occupied == state@.in_play(player as int, i as int).is_some());
        if occupied {
            let ghost before = moves@;
            moves.push(SimpleAction::Activate { in_play_idx: i });
            assert(simple_actions_view(moves@) =~= simple_actions_view(before).push(
                SimpleActionView::Activate { in_play_idx: i },
            ));
        }
        i += 1;
    }
    moves
}

/// Asks a player without an active creature to promote one.
pub fn request_promotion(state: &mut State, player: usize)
    requires
        player < 2,
        old(state)@.wf(),
    ensures
        final(state)@ == promotion_requested(old(state)@, player as int),
        final(state)@.wf(),
{
    if state.winner.is_none() && state.in_play_pokemon[player][0].is_none() {
        assert(state@.active(player as int).is_none());
        let moves = promotion_moves(state, player);
        if moves.len() > 0 {
            state.push_pending(player, moves);
        }
    } else {
        assert(state.winner.is_some() || state@.active(player as int).is_some());
    }
}

/// Asks both players.
pub fn request_promotions(state: &mut State)
    requires
        old(state)@.wf(),
    ensures
        final(state)@ == promotions_requested(old(state)@),
        final(state)@.wf(),
{
    let me = state.current_player;
    request_promotion(state, (me + 1) % 2);
    request_promotion(state, me);
}

} // verus!
