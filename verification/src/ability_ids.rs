//! The abilities that the engine can carry out, found by the identity of
//! the creature that declares them.

use vstd::prelude::*;

use crate::text::str_eq;

verus! {

/// An implemented ability.
#[derive(Clone, Copy, Debug, PartialEq, Eq, Hash, Structural)]
pub enum AbilityId {
    /// Once a turn: heals 20 damage from each creature of its side.
    A1007ButterfreePowderHeal,
    /// Once a turn: attaches one lightning energy to the creature itself.
    A1098MagnetonVoltCharge,
    /// Once a turn, from the active slot: poisons the opposing active
    /// creature.
    A1177WeezingGasLeak,
    /// Always on: each grass energy attached to a grass creature of its side
    /// counts twice.
    A1a006SerperiorJungleTotem,
}

impl AbilityId {
    /// The implemented ability of the creature with the given identity.
    pub open spec fn of_id(id: Seq<char>) -> Option<AbilityId> {
        if id == "A1 007"@ {
            Some(AbilityId::A1007ButterfreePowderHeal)
        } else if id == "A1 098"@ {
            Some(AbilityId::A1098MagnetonVoltCharge)
        } else if id == "A1 177"@ || id == "A1 243"@ {
            Some(AbilityId::A1177WeezingGasLeak)
        } else if id == "A1a 006"@ {
            Some(AbilityId::A1a006SerperiorJungleTotem)
        } else {
            None
        }
    }

    /// Looks up the ability of a creature.
    pub fn from_pokemon_id(pokemon_id: &str) -> (found: Option<AbilityId>)
        ensures
            found == AbilityId::of_id(pokemon_id@),
    {
        if str_eq(pokemon_id, "A1 007") {
            Some(AbilityId::A1007ButterfreePowderHeal)
        } else if str_eq(pokemon_id, "A1 098") {
            Some(AbilityId::A1098MagnetonVoltCharge)
        } else if str_eq(pokemon_id, "A1 177") || str_eq(pokemon_id, "A1 243") {
            Some(AbilityId::A1177WeezingGasLeak)
        } else if str_eq(pokemon_id, "A1a 006") {
            Some(AbilityId::A1a006SerperiorJungleTotem)
        } else {
            None
        }
    }

    /// Whether the ability is something its owner chooses to use, as opposed
    /// to one that is always on.
    pub open spec fn is_activated(self) -> bool {
        self != AbilityId::A1a006SerperiorJungleTotem
    }
}

} // verus!
