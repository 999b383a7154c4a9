//! Using an ability.

use vstd::prelude::*;

use crate::ability_ids::AbilityId;
use crate::actions::moves::attach_energy;
use crate::actions::moves::energy_attached;
use crate::actions::moves::heal_slot;
use crate::actions::moves::slot_healed;
use crate::models::card::EnergyType;
use crate::models::played_card::PlayedCardView;
use crate::slot_rules::slot_meets;
use crate::slot_rules::SlotRule;
use crate::state::State;
use crate::state::StateView;

verus! {

/// The health that the healing ability gives to each card.
pub const POWDER_HEAL: u32 = 20;

/// The ability that the card in a slot can use now, if any: the card's
/// creature has an implemented ability that is used by choice, it has not
/// used it this turn, and the ability has what it needs. The poisoning
/// ability needs its creature in the active slot, facing an opposing active
/// creature.
pub open spec fn usable_ability(state: StateView, player: int, idx: usize) -> Option<AbilityId> {
    if idx < 4 {
        match state.in_play(player, idx as int) {
            Some(card) => match AbilityId::of_id(card.card.id()) {
                Some(ability) => if card.ability_used || !ability.is_activated() {
                    None
                } else if ability == AbilityId::A1177WeezingGasLeak && !(idx == 0 && state.active(
                    StateView::opponent(player),
                ).is_some()) {
                    None
                } else {
                    Some(ability)
                },
                None => None,
            },
            None => None,
        }
    } else {
        None
    }
}

/// Executable form of [`usable_ability`].
pub fn find_usable_ability(state: &State, player: usize, idx: usize) -> (found: Option<AbilityId>)
    requires
        player < 2,
    ensures
        found == usable_ability(state@, player as int, idx),
{
    if idx >= 4 {
        return None;
    }
    let other = (player + 1) % 2;
    let faces_opponent = state.in_play_pokemon[other][0].is_some();
    assert(faces_opponent == state@.active(other as int).is_some());
    match &state.in_play_pokemon[player][idx] {
        Some(card) => {
            assert(state@.in_play(player as int, idx as int) == Some(card@));
            let id = card.get_id();
            match AbilityId::from_pokemon_id(id.as_str()) {
                Some(ability) => {
                    if card.ability_used {
                        None
                    } else {
                        match ability {
                            AbilityId::A1a006SerperiorJungleTotem => None,
                            AbilityId::A1177WeezingGasLeak => {
                                if idx == 0 && faces_opponent {
                                    Some(ability)
                                } else {
                                    None
                                }
                            },
                            _ => Some(ability),
                        }
                    }
                },
                None => None,
            }
        },
        None => {
            assert(state@.in_play(player as int, idx as int).is_none());
            None
        },
    }
}

/// The state after each card of a player in a slot below `n` that meets a
/// condition has been healed.
pub open spec fn healed_where_upto(
    state: StateView,
    player: int,
    rule: SlotRule,
    amount: u32,
    n: int,
) -> StateView
    decreases n,
{
    if n <= 0 {
        state
    } else {
        let rest = healed_where_upto(state, player, rule, amount, n - 1);
        if slot_meets(rest, player, n - 1, rule) {
            slot_healed(rest, player, (n - 1) as usize, amount, false)
        } else {
            rest
        }
    }
}

/// Heals each card of a player that meets a condition.
pub fn heal_where(state: &mut State, player: usize, rule: SlotRule, amount: u32)
    requires
        player < 2,
        old(state)@.wf(),
    ensures
        final(state)@ == healed_where_upto(old(state)@, player as int, rule, amount, 4),
        final(state)@.wf(),
{
    let mut i: usize = 0;
    while i < 4
        invariant
            player < 2,
            i <= 4,
            state@.wf(),
            state@ == healed_where_upto(old(state)@, player as int, rule, amount, i as int),
        decreases 4 - i,
    {
        let meets = match &state.in_play_pokemon[player][i] {
            Some(card) => {
                assert(state@.in_play(player as int, i as int) == Some(card@));
                rule.check(card)
            },
            None => {
                assert(state@.in_play(player as int, i as int).is_none());
                false
            },
        };
        if meets {
            heal_slot(state, player, i, amount, false);
        }
        i += 1;
    }
}

/// The state with the ability of the card in a slot marked as used.
pub open spec fn ability_marked(state: StateView, player: int, idx: usize) -> StateView {
    match state.in_play(player, idx as int) {
        Some(card) => state.set_slot(
            player,
            idx as int,
            Some(PlayedCardView { ability_used: true, ..card }),
        ),
        None => state,
    }
}

/// The state with a player's active creature poisoned.
pub open spec fn active_poisoned(state: StateView, player: int) -> StateView {
    match state.active(player) {
        Some(card) => state.set_slot(player, 0, Some(PlayedCardView { poisoned: true, ..card })),
        None => state,
    }
}

/// The state after the card in a slot has used its ability. A card without
/// an ability that it can use now leaves the state as it is.
pub open spec fn ability_used(state: StateView, player: int, idx: usize) -> StateView {
    match usable_ability(state, player, idx) {
        Some(AbilityId::A1007ButterfreePowderHeal) => ability_marked(
            healed_where_upto(state, player, SlotRule::Occupied, POWDER_HEAL, 4),
            player,
            idx,
        ),
        Some(AbilityId::A1098MagnetonVoltCharge) => ability_marked(
            energy_attached(state, player, idx, EnergyType::Lightning, 1, false),
            player,
            idx,
        ),
        Some(AbilityId::A1177WeezingGasLeak) => ability_marked(
            active_poisoned(state, StateView::opponent(player)),
            player,
            idx,
        ),
        _ => state,
    }
}

/// Marks the ability of the card in a slot as used.
fn mark_ability(state: &mut State, player: usize, idx: usize)
    requires
        player < 2,
        idx < 4,
        old(state)@.wf(),
    ensures
        final(state)@ == ability_marked(old(state)@, player as int, idx),
        final(state)@.wf(),
{
    match &mut state.in_play_pokemon[player][idx] {
        Some(card) => {
            card.ability_used = true;
        },
        None => {},
    }
    proof {
        let want = ability_marked(old(state)@, player as int, idx);
        assert(state@.in_play_pokemon[player as int] =~= want.in_play_pokemon[player as int]);
        assert(state@.in_play_pokemon =~= want.in_play_pokemon);
    }
}

/// Poisons a player's active creature.
pub fn poison_active(state: &mut State, player: usize)
    requires
        player < 2,
        old(state)@.wf(),
    ensures
        final(state)@ == active_poisoned(old(state)@, player as int),
        final(state)@.wf(),
{
    match &mut state.in_play_pokemon[player][0] {
        Some(card) => {
            card.poisoned = true;
        },
        None => {},
    }
    proof {
        let want = active_poisoned(old(state)@, player as int);
        assert(state@.in_play_pokemon[player as int] =~= want.in_play_pokemon[player as int]);
        assert(state@.in_play_pokemon =~= want.in_play_pokemon);
    }
}

/// Uses the ability of the card in a slot.
pub fn use_ability(state: &mut State, player: usize, idx: usize)
    requires
        player < 2,
        old(state)@.wf(),
    ensures
        final(state)@ == ability_used(old(state)@, player as int, idx),
        final(state)@.wf(),
{
    match find_usable_ability(state, player, idx) {
        Some(AbilityId::A1007ButterfreePowderHeal) => {
            heal_where(state, player, SlotRule::Occupied, POWDER_HEAL);
            mark_ability(state, player, idx);
        },
        Some(AbilityId::A1098MagnetonVoltCharge) => {
            attach_energy(state, player, idx, EnergyType::Lightning, 1, false);
            mark_ability(state, player, idx);
        },
        Some(AbilityId::A1177WeezingGasLeak) => {
            poison_active(state, (player + 1) % 2);
            mark_ability(state, player, idx);
        },
        _ => {},
    }
}

} // verus!
