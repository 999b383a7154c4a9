//! The legal actions of a state.
//!
//! While a decision is pending, the legal actions are the answers to the
//! most urgent pending decision and nothing else. Otherwise they are the
//! moves of the player whose turn it is.

use vstd::prelude::*;

use crate::actions::abilities::find_usable_ability;
use crate::actions::abilities::usable_ability;
use crate::actions::attack::find_free_bench;
use crate::actions::attack::first_free_bench;
use crate::actions::moves::can_retreat;
use crate::actions::moves::may_retreat;
use crate::actions::trainers::find_play_effect;
use crate::actions::trainers::play_effect_of;
use crate::actions::types::actions_view;
use crate::actions::types::simple_actions_view;
use crate::actions::types::Action;
use crate::actions::types::ActionView;
use crate::actions::types::SimpleAction;
use crate::actions::types::SimpleActionView;
use crate::models::card::cards_view;
use crate::models::card::Card;
use crate::models::card::CardView;
use crate::models::card::EnergyType;
use crate::move_generation::attacks::attack_moves;
use crate::move_generation::attacks::generate_attack_actions;
use crate::move_generation::move_generation_trainer::generate_possible_trainer_actions;
use crate::move_generation::move_generation_trainer::trainer_moves;
use crate::state::State;
use crate::state::StateView;

verus! {

/// Moves made into actions of one player.
pub open spec fn as_actions(actor: usize, moves: Seq<SimpleActionView>, is_stack: bool) -> Seq<
    ActionView,
> {
    moves.map_values(|m: SimpleActionView| ActionView { actor, action: m, is_stack })
}

/// The moves that attach the turn's energy to a card of a player in a slot
/// below `n`, in slot order.
pub open spec fn energy_moves_upto(state: StateView, player: int, energy: EnergyType, n: int) -> Seq<
    SimpleActionView,
>
    decreases n,
{
    if n <= 0 {
        Seq::empty()
    } else {
        let rest = energy_moves_upto(state, player, energy, n - 1);
        if state.in_play(player, n - 1).is_some() {
            rest.push(
                SimpleActionView::Attach {
                    in_play_idx: (n - 1) as usize,
                    energy,
                    count: 1,
                    is_turn_energy: true,
                },
            )
        } else {
            rest
        }
    }
}

/// The moves that attach the turn's energy, if the player to move still
/// has it.
pub open spec fn energy_moves(state: StateView) -> Seq<SimpleActionView> {
    match state.current_energy {
        Some(energy) => energy_moves_upto(state, state.current_player as int, energy, 4),
        None => Seq::empty(),
    }
}

/// The moves that place one of the first `n` cards of a hand into a slot:
/// one for each basic creature, in hand order.
pub open spec fn placements_upto(hand: Seq<CardView>, slot: usize, n: int) -> Seq<SimpleActionView>
    decreases n,
{
    if n <= 0 {
        Seq::empty()
    } else {
        let rest = placements_upto(hand, slot, n - 1);
        if hand[n - 1].is_basic() {
            rest.push(SimpleActionView::Place(hand[n - 1], slot))
        } else {
            rest
        }
    }
}

/// The moves that place a basic creature from the hand of the player to
/// move onto the bench: into the first free bench slot, if there is one.
pub open spec fn bench_placements(state: StateView) -> Seq<SimpleActionView> {
    let me = state.current_player as int;
    match first_free_bench(state, me) {
        Some(slot) => placements_upto(state.hands[me], slot as usize, state.hands[me].len() as int),
        None => Seq::empty(),
    }
}

/// The moves that play one of the first `n` cards of the hand of the
/// player to move: one for each trainer card whose effect the engine
/// carries out and whose rule the state meets, in hand order.
pub open spec fn trainer_plays_upto(state: StateView, n: int) -> Seq<SimpleActionView>
    decreases n,
{
    if n <= 0 {
        Seq::empty()
    } else {
        let rest = trainer_plays_upto(state, n - 1);
        match state.hands[state.current_player as int][n - 1] {
            CardView::Trainer(card) => if play_effect_of(card).is_some() {
                match trainer_moves(state, card) {
                    Some(moves) => rest + moves,
                    None => rest,
                }
            } else {
                rest
            },
            CardView::Pokemon(_) => rest,
        }
    }
}

/// The moves that use the ability of a card of a player in a slot below
/// `n`, in slot order.
pub open spec fn ability_moves_upto(state: StateView, player: int, n: int) -> Seq<SimpleActionView>
    decreases n,
{
    if n <= 0 {
        Seq::empty()
    } else {
        let rest = ability_moves_upto(state, player, n - 1);
        if usable_ability(state, player, (n - 1) as usize).is_some() {
            rest.push(SimpleActionView::UseAbility((n - 1) as usize))
        } else {
            rest
        }
    }
}

/// The moves that retreat to a bench slot of a player below `n`, in slot
/// order.
pub open spec fn retreat_moves_upto(state: StateView, player: int, n: int) -> Seq<SimpleActionView>
    decreases n,
{
    if n <= 1 {
        Seq::empty()
    } else {
        let rest = retreat_moves_upto(state, player, n - 1);
        if state.in_play(player, n - 1).is_some() {
            rest.push(SimpleActionView::Retreat((n - 1) as usize))
        } else {
            rest
        }
    }
}

/// The moves that retreat the active creature of the player to move, if
/// it may retreat.
pub open spec fn retreat_moves(state: StateView) -> Seq<SimpleActionView> {
    let me = state.current_player as int;
    if may_retreat(state, me) {
        retreat_moves_upto(state, me, 4)
    } else {
        Seq::empty()
    }
}

/// The moves of the player to move during setup. A player without an
/// active creature must place one if the hand holds a basic creature, and
/// can only pass if it does not. A player with an active creature may fill
/// the bench or pass.
pub open spec fn setup_moves(state: StateView) -> Seq<SimpleActionView> {
    let me = state.current_player as int;
    let hand = state.hands[me];
    if state.active(me).is_none() {
        let placements = placements_upto(hand, 0, hand.len() as int);
        if placements.len() > 0 {
            placements
        } else {
            seq![SimpleActionView::EndTurn]
        }
    } else {
        bench_placements(state).push(SimpleActionView::EndTurn)
    }
}

/// The moves of the player to move in a turn: attaching the turn's
/// energy, placing creatures on the bench, playing trainer cards, using
/// abilities, retreating, attacking, and always, as the last move, ending
/// the turn.
pub open spec fn turn_moves(state: StateView) -> Seq<SimpleActionView> {
    let me = state.current_player as int;
    (energy_moves(state) + bench_placements(state) + trainer_plays_upto(
        state,
        state.hands[me].len() as int,
    ) + ability_moves_upto(state, me, 4) + retreat_moves(state) + attack_moves(state)).push(
        SimpleActionView::EndTurn,
    )
}

/// The moves of the player to move when no decision is pending.
pub open spec fn fresh_moves(state: StateView) -> Seq<SimpleActionView> {
    if state.turn_count == 0 {
        setup_moves(state)
    } else {
        turn_moves(state)
    }
}

/// Who acts next, and the legal actions.
///
/// While a decision is pending, the player who must decide acts, and the
/// legal actions are the moves of the most urgent pending decision, each
/// marked as answering it. Otherwise the player to move acts, and the
/// legal actions are that player's moves.
pub open spec fn possible_actions(state: StateView) -> (usize, Seq<ActionView>) {
    if state.move_generation_stack.len() > 0 {
        let (actor, moves) = state.move_generation_stack.last();
        (actor, as_actions(actor, moves, true))
    } else {
        (state.current_player, as_actions(state.current_player, fresh_moves(state), false))
    }
}

/// Queue priority: while a decision is pending, the legal actions are
/// exactly the answers to the most urgent pending decision, for the player
/// who must decide. Every one of them is marked as answering a pending
/// decision, so none is a fresh move of the player whose turn it is.
pub proof fn lemma_pending_decision_comes_first(state: StateView)
    requires
        state.move_generation_stack.len() > 0,
    ensures
        possible_actions(state).0 == state.move_generation_stack.last().0,
        possible_actions(state).1.len() == state.move_generation_stack.last().1.len(),
        forall|k: int|
            0 <= k < possible_actions(state).1.len() ==> {
                let action = #[trigger] possible_actions(state).1[k];
                &&& action.is_stack
                &&& action.actor == state.move_generation_stack.last().0
                &&& action.action == state.move_generation_stack.last().1[k]
            },
{
}

/// There is always a legal action: a pending decision has at least one
/// move, and a player without a pending decision can at least place a card
/// or end the turn.
pub proof fn lemma_some_action_is_legal(state: StateView)
    requires
        state.wf(),
    ensures
        possible_actions(state).1.len() > 0,
{
    let stack = state.move_generation_stack;
    if stack.len() > 0 {
        assert(stack[stack.len() - 1] == stack.last());
    }
}

/// Adds moves to a list.
fn add_moves(list: &mut Vec<SimpleAction>, more: Vec<SimpleAction>)
    ensures
        simple_actions_view(final(list)@) == simple_actions_view(old(list)@) + simple_actions_view(
            more@,
        ),
{
    let mut more = more;
    let ghost added = more@;
    list.append(&mut more);
    assert(simple_actions_view(list@) =~= simple_actions_view(old(list)@) + simple_actions_view(
        added,
    ));
}

/// Adds one move to a list.
fn add_move(list: &mut Vec<SimpleAction>, one: SimpleAction)
    ensures
        simple_actions_view(final(list)@) == simple_actions_view(old(list)@).push(one@),
{
    list.push(one);
    assert(simple_actions_view(list@) =~= simple_actions_view(old(list)@).push(one@));
}

/// A list without moves.
fn no_moves() -> (list: Vec<SimpleAction>)
    ensures
        simple_actions_view(list@) == Seq::<SimpleActionView>::empty(),
{
    let list: Vec<SimpleAction> = Vec::new();
    assert(simple_actions_view(list@) =~= Seq::<SimpleActionView>::empty());
    list
}

/// The moves that attach the turn's energy.
pub fn generate_energy_moves(state: &State) -> (moves: Vec<SimpleAction>)
    requires
        state@.current_player < 2,
    ensures
        simple_actions_view(moves@) == energy_moves(state@),
{
    let mut moves = no_moves();
    let energy = match state.current_energy {
        Some(energy) => energy,
        None => {
            return moves;
        },
    };
    let me = state.current_player;
    let mut i: usize = 0;
    while i < 4
        invariant
            me < 2,
            me == state@.current_player,
            i <= 4,
            simple_actions_view(moves@) == energy_moves_upto(state@, me as int, energy, i as int),
        decreases 4 - i,
    {
        let occupied = state.in_play_pokemon[me][i].is_some();
        assert(occupied == state@.in_play(me as int, i as int).is_some());
        if occupied {
            add_move(
                &mut moves,
                SimpleAction::Attach { in_play_idx: i, energy, count: 1, is_turn_energy: true },
            );
        }
        i += 1;
    }
    moves
}

/// The moves that place a basic creature from a hand into a slot.
pub fn generate_placements(hand: &Vec<Card>, slot: usize) -> (moves: Vec<SimpleAction>)
    ensures
        simple_actions_view(moves@) == placements_upto(
            cards_view(hand@),
            slot,
            hand@.len() as int,
        ),
{
    let ghost view = cards_view(hand@);
    let mut moves = no_moves();
    let mut k: usize = 0;
    while k < hand.len()
        invariant
            k <= hand.len(),
            view == cards_view(hand@),
            simple_actions_view(moves@) == placements_upto(view, slot, k as int),
        decreases hand.len() - k,
    {
        assert(view[k as int] == hand@[k as int]@);
        if hand[k].is_basic() {
            add_move(&mut moves, SimpleAction::Place(hand[k].clone(), slot));
        }
        k += 1;
    }
    moves
}

/// The moves that place a basic creature onto the bench.
pub fn generate_bench_placements(state: &State) -> (moves: Vec<SimpleAction>)
    requires
        state@.current_player < 2,
    ensures
        simple_actions_view(moves@) == bench_placements(state@),
{
    let me = state.current_player;
    match find_free_bench(state, me) {
        Some(slot) => generate_placements(&state.hands[me], slot),
        None => no_moves(),
    }
}

/// The moves that play a trainer card from the hand.
pub fn generate_trainer_plays(state: &State) -> (moves: Vec<SimpleAction>)
    requires
        state@.current_player < 2,
    ensures
        simple_actions_view(moves@) == trainer_plays_upto(
            state@,
            state@.hands[state@.current_player as int].len() as int,
        ),
{
    let me = state.current_player;
    let hand = &state.hands[me];
    let mut moves = no_moves();
    let mut k: usize = 0;
    while k < hand.len()
        invariant
            me < 2,
            me == state@.current_player,
            *hand == state.hands[me as int],
            k <= hand.len(),
            simple_actions_view(moves@) == trainer_plays_upto(state@, k as int),
        decreases hand.len() - k,
    {
        assert(state@.hands[me as int][k as int] == hand@[k as int]@);
        match &hand[k] {
            Card::Trainer(card) => {
                if find_play_effect(card).is_some() {
                    match generate_possible_trainer_actions(state, card) {
                        Some(plays) => {
                            add_moves(&mut moves, plays);
                        },
                        None => {},
                    }
                }
            },
            Card::Pokemon(_) => {},
        }
        k += 1;
    }
    moves
}

/// The moves that use an ability.
pub fn generate_ability_moves(state: &State) -> (moves: Vec<SimpleAction>)
    requires
        state@.current_player < 2,
    ensures
        simple_actions_view(moves@) == ability_moves_upto(
            state@,
            state@.current_player as int,
            4,
        ),
{
    let me = state.current_player;
    let mut moves = no_moves();
    let mut i: usize = 0;
    while i < 4
        invariant
            me < 2,
            i <= 4,
            simple_actions_view(moves@) == ability_moves_upto(state@, me as int, i as int),
        decreases 4 - i,
    {
        if find_usable_ability(state, me, i).is_some() {
            add_move(&mut moves, SimpleAction::UseAbility(i));
        }
        i += 1;
    }
    moves
}

/// The moves that retreat the active creature.
pub fn generate_retreat_moves(state: &State) -> (moves: Vec<SimpleAction>)
    requires
        state@.current_player < 2,
    ensures
        simple_actions_view(moves@) == retreat_moves(state@),
{
    let me = state.current_player;
    let mut moves = no_moves();
    if !can_retreat(state, me) {
        return moves;
    }
    let mut i: usize = 1;
    while i < 4
        invariant
            me < 2,
            1 <= i <= 4,
            simple_actions_view(moves@) == retreat_moves_upto(state@, me as int, i as int),
        decreases 4 - i,
    {
        let occupied = state.in_play_pokemon[me][i].is_some();
        assert(occupied == state@.in_play(me as int, i as int).is_some());
        if occupied {
            add_move(&mut moves, SimpleAction::Retreat(i));
        }
        i += 1;
    }
    moves
}

/// The moves of the player to move when no decision is pending.
pub fn generate_fresh_moves(state: &State) -> (moves: Vec<SimpleAction>)
    requires
        state@.current_player < 2,
    ensures
        simple_actions_view(moves@) == fresh_moves(state@),
{
    let me = state.current_player;
    if state.turn_count == 0 {
        let has_active = state.in_play_pokemon[me][0].is_some();
        assert(has_active == state@.active(me as int).is_some());
        if !has_active {
            let mut placements = generate_placements(&state.hands[me], 0);
            if placements.len() == 0 {
                add_move(&mut placements, SimpleAction::EndTurn);
                assert(simple_actions_view(placements@) =~= seq![SimpleActionView::EndTurn]);
            }
            return placements;
        }
        let mut moves = generate_bench_placements(state);
        add_move(&mut moves, SimpleAction::EndTurn);
        return moves;
    }
    let mut moves = generate_energy_moves(state);
    add_moves(&mut moves, generate_bench_placements(state));
    add_moves(&mut moves, generate_trainer_plays(state));
    add_moves(&mut moves, generate_ability_moves(state));
    add_moves(&mut moves, generate_retreat_moves(state));
    add_moves(&mut moves, generate_attack_actions(state));
    add_move(&mut moves, SimpleAction::EndTurn);
    moves
}

/// Makes moves into actions of one player.
fn to_actions(actor: usize, moves: &Vec<SimpleAction>, is_stack: bool) -> (actions: Vec<Action>)
    ensures
        actions_view(actions@) == as_actions(actor, simple_actions_view(moves@), is_stack),
{
    let mut actions: Vec<Action> = Vec::new();
    let mut k: usize = 0;
    while k < moves.len()
        invariant
            k <= moves.len(),
            actions@.len() == k,
            forall|j: int|
                0 <= j < k ==> (#[trigger] actions@[j])@ == (ActionView {
                    actor,
                    action: moves@[j]@,
                    is_stack,
                }),
        decreases moves.len() - k,
    {
        actions.push(Action { actor, action: moves[k].clone(), is_stack });
        k += 1;
    }
    assert(actions_view(actions@) =~= as_actions(actor, simple_actions_view(moves@), is_stack));
    actions
}

/// Who acts next, and the legal actions.
pub fn generate_possible_actions(state: &State) -> (next: (usize, Vec<Action>))
    requires
        state@.current_player < 2,
    ensures
        next.0 == possible_actions(state@).0,
        actions_view(next.1@) == possible_actions(state@).1,
{
    let pending = state.move_generation_stack.len();
    if pending > 0 {
        let head = &state.move_generation_stack[pending - 1];
        assert(state@.move_generation_stack.last() == crate::state::pending_view(*head));
        return (head.0, to_actions(head.0, &head.1, true));
    }
    let moves = generate_fresh_moves(state);
    (state.current_player, to_actions(state.current_player, &moves, false))
}

} // verus!
