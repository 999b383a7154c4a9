//! Which attacks the active creature of the player to move may use.

use vstd::prelude::*;

use crate::actions::types::simple_actions_view;
use crate::actions::types::SimpleAction;
use crate::actions::types::SimpleActionView;
use crate::attack_ids::AttackId;
use crate::effects::CardEffect;
use crate::hooks::contains_energy;
use crate::hooks::pays;
use crate::models::card::attacks_view;
use crate::models::card::Card;
use crate::models::card::CardView;
use crate::models::played_card::effective_energy;
use crate::models::played_card::PlayedCardView;
use crate::state::State;
use crate::state::StateView;

verus! {

/// Whether a creature in the active slot of `player` may use its attack at
/// position `i`: no effect forbids it to attack, the energy attached to it
/// pays the attack's cost, and no effect forbids this one attack.
pub open spec fn may_use_attack(state: StateView, player: int, active: PlayedCardView, i: int) -> bool {
    &&& active.card matches CardView::Pokemon(creature)
    &&& 0 <= i < creature.attacks.len()
    &&& !active.active_effects().contains(CardEffect::CannotAttack)
    &&& pays(effective_energy(active, state, player), creature.attacks[i].energy_required)
    &&& match AttackId::of_index(creature.id, i) {
        Some(attack) => !active.active_effects().contains(CardEffect::CannotUseAttack(attack)),
        None => true,
    }
}

/// The attack moves among the first `n` attacks of a creature, in the order
/// of the attack list.
pub open spec fn attack_moves_upto(
    state: StateView,
    player: int,
    active: PlayedCardView,
    n: int,
) -> Seq<SimpleActionView>
    decreases n,
{
    if n <= 0 {
        Seq::empty()
    } else {
        let rest = attack_moves_upto(state, player, active, n - 1);
        if may_use_attack(state, player, active, n - 1) {
            rest.push(SimpleActionView::Attack((n - 1) as usize))
        } else {
            rest
        }
    }
}

/// The attack moves of the player to move: one for each attack that the
/// active creature may use, in the order of its attack list; none without
/// an active creature.
pub open spec fn attack_moves(state: StateView) -> Seq<SimpleActionView> {
    let me = state.current_player as int;
    match state.active(me) {
        Some(active) => match active.card {
            CardView::Pokemon(creature) => attack_moves_upto(
                state,
                me,
                active,
                creature.attacks.len() as int,
            ),
            CardView::Trainer(_) => Seq::empty(),
        },
        None => Seq::empty(),
    }
}

/// Whether a move is an attack at a position below `n`.
pub open spec fn is_attack_below(a: SimpleActionView, n: int) -> bool {
    match a {
        SimpleActionView::Attack(j) => j < n,
        _ => false,
    }
}

/// The attack moves offer exactly the attacks that may be used: among the
/// first `n` attacks, the move for an attack is offered if and only if the
/// creature may use that attack, and nothing else is offered.
pub proof fn lemma_attack_moves_exact(state: StateView, player: int, active: PlayedCardView, n: int)
    requires
        n <= usize::MAX,
    ensures
        forall|i: int|
            0 <= i < n ==> (attack_moves_upto(state, player, active, n).contains(
                SimpleActionView::Attack(i as usize),
            ) <==> #[trigger] may_use_attack(state, player, active, i)),
        forall|k: int|
            0 <= k < attack_moves_upto(state, player, active, n).len() ==> is_attack_below(
                #[trigger] attack_moves_upto(state, player, active, n)[k],
                n,
            ),
    decreases n,
{
    broadcast use vstd::seq_lib::lemma_seq_contains_after_push;

    if n > 0 {
        lemma_attack_moves_exact(state, player, active, n - 1);
        let rest = attack_moves_upto(state, player, active, n - 1);
        let all = attack_moves_upto(state, player, active, n);
        let last = SimpleActionView::Attack((n - 1) as usize);
        assert(!rest.contains(last)) by {
            if rest.contains(last) {
                let k = choose|k: int| 0 <= k < rest.len() && rest[k] == last;
                assert(is_attack_below(rest[k], n - 1));
            }
        }
        assert forall|i: int| 0 <= i < n implies (all.contains(
            SimpleActionView::Attack(i as usize),
        ) <==> #[trigger] may_use_attack(state, player, active, i)) by {
            if i < n - 1 {
                assert(SimpleActionView::Attack(i as usize) != last);
            }
        }
    }
}

/// Whether a list of effects holds a given one.
pub fn holds_effect(effects: &Vec<CardEffect>, effect: CardEffect) -> (found: bool)
    ensures
        found == effects@.contains(effect),
{
    let mut i: usize = 0;
    while i < effects.len()
        invariant
            i <= effects.len(),
            forall|j: int| 0 <= j < i ==> effects@[j] != effect,
        decreases effects.len() - i,
    {
        if effects[i] == effect {
            return true;
        }
        i += 1;
    }
    false
}

/// The attack moves of the player to move.
pub fn generate_attack_actions(state: &State) -> (actions: Vec<SimpleAction>)
    requires
        state@.current_player < 2,
    ensures
        simple_actions_view(actions@) == attack_moves(state@),
{
    let current_player = state.current_player;
    let mut actions: Vec<SimpleAction> = Vec::new();
    assert(simple_actions_view(actions@) =~= Seq::empty());
    if let Some(active_pokemon) = &state.in_play_pokemon[current_player][0] {
        assert(state@.active(current_player as int) == Some(active_pokemon@));
        let creature = match &active_pokemon.card {
            Card::Pokemon(creature) => creature,
            Card::Trainer(_) => {
                return actions;
            },
        };
        let ghost active = active_pokemon@;
        let ghost me = current_player as int;
        let active_effects = active_pokemon.get_active_effects();
        let cannot_attack = holds_effect(&active_effects, CardEffect::CannotAttack);
        let n = creature.attacks.len();
        assert(attacks_view(creature.attacks@).len() == n);
        let mut i: usize = 0;
        while i < n
            invariant
                i <= n,
                n == creature.attacks.len(),
                current_player < 2,
                me == current_player as int,
                active == active_pokemon@,
                active.card == CardView::Pokemon(creature@),
                active_effects@ == active.active_effects(),
                cannot_attack == active_effects@.contains(CardEffect::CannotAttack),
                simple_actions_view(actions@) == attack_moves_upto(state@, me, active, i as int),
            decreases n - i,
        {
            let attack = &creature.attacks[i];
            assert(creature@.attacks[i as int] == attack@);
            let mut usable = !cannot_attack && contains_energy(
                active_pokemon,
                &attack.energy_required,
                state,
                current_player,
            );
            if usable {
                match AttackId::from_pokemon_index(creature.id.as_str(), i) {
                    Some(attack_id) => {
                        if holds_effect(&active_effects, CardEffect::CannotUseAttack(attack_id)) {
                            usable = false;
                        }
                    },
                    None => {},
                }
            }
            assert(usable == may_use_attack(state@, me, active, i as int));
            if usable {
                let ghost before = actions@;
                actions.push(SimpleAction::Attack(i));
                assert(simple_actions_view(actions@) =~= simple_actions_view(before).push(
                    SimpleActionView::Attack(i),
                ));
            }
            i += 1;
        }
    } else {
        assert(state@.active(current_player as int).is_none());
    }
    actions
}

} // verus!
