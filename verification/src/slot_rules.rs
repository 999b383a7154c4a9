//! Conditions on cards in play, and the search for a card that meets one.

use vstd::prelude::*;

use crate::hooks::get_stage;
use crate::hooks::is_ultra_beast;
use crate::hooks::stage_of;
use crate::hooks::ultra_beast_name;
use crate::models::card::EnergyType;
use crate::models::played_card::PlayedCard;
use crate::models::played_card::PlayedCardView;
use crate::state::State;
use crate::state::StateView;

verus! {

/// A condition on one card in play.
#[derive(Clone, Copy, Debug, PartialEq, Eq, Hash, Structural)]
pub enum SlotRule {
    /// Any card.
    Occupied,
    /// A card with less than full health.
    Damaged,
    /// A damaged grass creature.
    DamagedGrass,
    /// A damaged card with water energy attached.
    DamagedWithWater,
    /// A damaged stage 2 creature.
    DamagedStage2,
    /// A card that is damaged or has a status condition.
    DamagedOrAffected,
    /// A card with fire, water or lightning energy attached.
    HoldsSwitchableEnergy,
    /// An ultra beast.
    UltraBeast,
    /// A card that evolved from Eevee.
    EeveeEvolution,
}

impl SlotRule {
    /// Whether a card meets the condition.
    pub open spec fn holds(self, card: PlayedCardView) -> bool {
        match self {
            SlotRule::Occupied => true,
            SlotRule::Damaged => card.is_damaged(),
            SlotRule::DamagedGrass => card.is_damaged() && card.card.energy_type() == Some(
                EnergyType::Grass,
            ),
            SlotRule::DamagedWithWater => card.is_damaged() && card.attached_energy.contains(
                EnergyType::Water,
            ),
            SlotRule::DamagedStage2 => card.is_damaged() && stage_of(card.card) == 2,
            SlotRule::DamagedOrAffected => card.is_damaged() || card.has_status_condition(),
            SlotRule::HoldsSwitchableEnergy => card.attached_energy.contains(EnergyType::Fire)
                || card.attached_energy.contains(EnergyType::Water)
                || card.attached_energy.contains(EnergyType::Lightning),
            SlotRule::UltraBeast => ultra_beast_name(card.card.name()),
            SlotRule::EeveeEvolution => card.evolved_from("Eevee"@),
        }
    }

    /// Executable form of [`SlotRule::holds`].
    pub fn check(self, card: &PlayedCard) -> (ok: bool)
        ensures
            ok == self.holds(card@),
    {
        match self {
            SlotRule::Occupied => true,
            SlotRule::Damaged => card.is_damaged(),
            SlotRule::DamagedGrass => card.is_damaged() && card.get_energy_type() == Some(
                EnergyType::Grass,
            ),
            SlotRule::DamagedWithWater => card.is_damaged() && holds_energy(
                &card.attached_energy,
                EnergyType::Water,
            ),
            SlotRule::DamagedStage2 => card.is_damaged() && get_stage(card) == 2,
            SlotRule::DamagedOrAffected => card.is_damaged() || card.has_status_condition(),
            SlotRule::HoldsSwitchableEnergy => holds_energy(&card.attached_energy, EnergyType::Fire)
                || holds_energy(&card.attached_energy, EnergyType::Water) || holds_energy(
                &card.attached_energy,
                EnergyType::Lightning,
            ),
            SlotRule::UltraBeast => {
                let name = card.get_name();
                is_ultra_beast(name.as_str())
            },
            SlotRule::EeveeEvolution => card.evolved_from("Eevee"),
        }
    }
}

/// Whether a list of energies holds one of the given type.
pub fn holds_energy(energies: &Vec<EnergyType>, energy: EnergyType) -> (found: bool)
    ensures
        found == energies@.contains(energy),
{
    let mut i: usize = 0;
    while i < energies.len()
        invariant
            i <= energies.len(),
            forall|j: int| 0 <= j < i ==> energies@[j] != energy,
        decreases energies.len() - i,
    {
        if energies[i] == energy {
            return true;
        }
        i += 1;
    }
    false
}

/// Whether the card in a slot meets a condition.
pub open spec fn slot_meets(state: StateView, player: int, idx: int, rule: SlotRule) -> bool {
    match state.in_play(player, idx) {
        Some(card) => rule.holds(card),
        None => false,
    }
}

/// Whether a player has a card in a slot from `from` on that meets a
/// condition. With `from` 0 this asks about all cards in play, with 1 about
/// the bench.
pub open spec fn some_slot_meets(state: StateView, player: int, from: int, rule: SlotRule) -> bool {
    exists|i: int| from <= i < 4 && #[trigger] slot_meets(state, player, i, rule)
}

/// Executable form of [`some_slot_meets`].
pub fn any_slot_meets(state: &State, player: usize, from: usize, rule: SlotRule) -> (found: bool)
    requires
        player < 2,
    ensures
        found == some_slot_meets(state@, player as int, from as int, rule),
{
    let mut i: usize = from;
    while i < 4
        invariant
            player < 2,
            from <= i,
            forall|j: int| from <= j < i && j < 4 ==> !slot_meets(state@, player as int, j, rule),
        decreases 4 - i,
    {
        match &state.in_play_pokemon[player][i] {
            Some(card) => {
                assert(state@.in_play(player as int, i as int) == Some(card@));
                if rule.check(card) {
                    assert(slot_meets(state@, player as int, i as int, rule));
                    return true;
                }
            },
            None => {
                assert(state@.in_play(player as int, i as int).is_none());
            },
        }
        i += 1;
    }
    false
}

} // verus!
