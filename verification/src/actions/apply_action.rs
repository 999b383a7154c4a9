//! Applying a chosen action to the game.

use rand::rngs::StdRng;
use vstd::prelude::*;

use crate::actions::abilities::ability_used;
use crate::actions::abilities::use_ability;
use crate::actions::attack::attack_resolved;
use crate::actions::attack::resolve_attack;
use crate::actions::moves::activate;
use crate::actions::moves::activated;
use crate::actions::moves::attach_energy;
use crate::actions::moves::attach_tool;
use crate::actions::moves::energy_attached;
use crate::actions::moves::heal_slot;
use crate::actions::moves::place;
use crate::actions::moves::placed;
use crate::actions::moves::retreat;
use crate::actions::moves::retreated;
use crate::actions::moves::slot_healed;
use crate::actions::moves::tool_attached;
use crate::actions::trainers::play_trainer;
use crate::actions::trainers::trainer_played;
use crate::actions::turn::draw_card;
use crate::actions::turn::drawn;
use crate::actions::turn::end_turn;
use crate::actions::turn::turn_ended;
use crate::actions::types::Action;
use crate::actions::types::ActionView;
use crate::actions::types::SimpleAction;
use crate::actions::types::SimpleActionView;
use crate::rng::draw_below;
use crate::state::State;
use crate::state::StateView;

verus! {

/// The state after an action.
///
/// The state after an action depends on the state before, on the action,
/// and for the end of a turn on one pick: which of the energy types of the
/// next player's deck that player gets. An action that answers a pending
/// decision first removes that decision. An action that does not fit the
/// state does nothing more.
pub open spec fn step(state: StateView, action: ActionView, pick: usize) -> StateView {
    let actor = action.actor as int;
    let s = if action.is_stack {
        state.pop_pending()
    } else {
        state
    };
    match action.action {
        SimpleActionView::DrawCard => drawn(s, actor),
        SimpleActionView::Place(card, idx) => placed(s, actor, card.id(), idx),
        SimpleActionView::Attach { in_play_idx, energy, count, is_turn_energy } => energy_attached(
            s,
            actor,
            in_play_idx,
            energy,
            count,
            is_turn_energy,
        ),
        SimpleActionView::AttachTool { in_play_idx, tool_id } => tool_attached(
            s,
            actor,
            in_play_idx,
            tool_id,
        ),
        SimpleActionView::Heal { in_play_idx, amount, cure_status } => slot_healed(
            s,
            actor,
            in_play_idx,
            amount,
            cure_status,
        ),
        SimpleActionView::Play { trainer_card } => trainer_played(s, actor, trainer_card.id),
        SimpleActionView::UseAbility(idx) => ability_used(s, actor, idx),
        SimpleActionView::Attack(idx) => attack_resolved(s, actor, idx),
        SimpleActionView::Retreat(idx) => retreated(s, actor, idx),
        SimpleActionView::EndTurn => turn_ended(s, pick),
        SimpleActionView::Activate { in_play_idx } => activated(s, actor, in_play_idx),
    }
}

/// The number of energy types among which the end of the current turn
/// picks: those of the deck of the player who moves next.
pub open spec fn picks(state: StateView) -> nat {
    state.decks[StateView::opponent(state.current_player as int)].energy_types.len()
}

/// Applies an action, with the pick for the end of a turn given.
pub fn apply_action_with_pick(state: &mut State, action: &Action, pick: usize)
    requires
        old(state)@.wf(),
        action.actor < 2,
    ensures
        final(state)@ == step(old(state)@, action@, pick),
        final(state)@.wf(),
{
    let actor = action.actor;
    if action.is_stack {
        state.pop_pending();
    }
    match &action.action {
        SimpleAction::DrawCard => draw_card(state, actor),
        SimpleAction::Place(card, idx) => {
            let id = card.get_id();
            place(state, actor, id.as_str(), *idx)
        },
        SimpleAction::Attach { in_play_idx, energy, count, is_turn_energy } => attach_energy(
            state,
            actor,
            *in_play_idx,
            *energy,
            *count,
            *is_turn_energy,
        ),
        SimpleAction::AttachTool { in_play_idx, tool_id } => attach_tool(
            state,
            actor,
            *in_play_idx,
            *tool_id,
        ),
        SimpleAction::Heal { in_play_idx, amount, cure_status } => heal_slot(
            state,
            actor,
            *in_play_idx,
            *amount,
            *cure_status,
        ),
        SimpleAction::Play { trainer_card } => play_trainer(state, actor, trainer_card.id.as_str()),
        SimpleAction::UseAbility(idx) => use_ability(state, actor, *idx),
        SimpleAction::Attack(idx) => resolve_attack(state, actor, *idx),
        SimpleAction::Retreat(idx) => retreat(state, actor, *idx),
        SimpleAction::EndTurn => end_turn(state, pick),
        SimpleAction::Activate { in_play_idx } => activate(state, actor, *in_play_idx),
    }
}

/// Applies an action. Where the action ends a turn and the next player's
/// deck generates more than one type of energy, the random source picks
/// the type; nothing else is random.
pub fn apply_action(rng: &mut StdRng, state: &mut State, action: &Action)
    requires
        old(state)@.wf(),
        action.actor < 2,
    ensures
        exists|pick: usize|
            (pick == 0 || pick < picks(old(state)@)) && final(state)@ == #[trigger] step(
                old(state)@,
                action@,
                pick,
            ),
        final(state)@.wf(),
{
    let next = (state.current_player + 1) % 2;
    let choices = state.decks[next].energy_types.len();
    let ends_turn = match &action.action {
        SimpleAction::EndTurn => true,
        _ => false,
    };
    let pick = if ends_turn && choices > 1 {
        draw_below(rng, choices)
    } else {
        0
    };
    apply_action_with_pick(state, action, pick);
}

/// Only the end of a turn depends on the pick.
pub proof fn lemma_pick_matters_only_at_turn_end(
    state: StateView,
    action: ActionView,
    pick_a: usize,
    pick_b: usize,
)
    requires
        action.action != SimpleActionView::EndTurn,
    ensures
        step(state, action, pick_a) == step(state, action, pick_b),
{
}

} // verus!
