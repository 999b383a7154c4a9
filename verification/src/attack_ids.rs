//! The attacks whose declared effect the engine can carry out.
//!
//! An attack is found by the identity of its creature and its position in
//! the creature's attack list. An attack that declares an effect and is not
//! listed here cannot be resolved.

use vstd::prelude::*;

use crate::text::str_eq;

verus! {

/// An attack with an implemented effect.
#[derive(Clone, Copy, Debug, PartialEq, Eq, Hash, Structural)]
pub enum AttackId {
    /// Heals 30 damage from the attacker.
    A1003VenusaurMegaDrain,
    /// The defender falls asleep.
    A1013VileplumeSoothingScent,
    /// The defender is poisoned.
    A1017VenomothPoisonPowder,
    /// Discards 2 fire energy from the attacker.
    A1036CharizardExCrimsonStorm,
    /// The defender cannot retreat during its owner's next turn.
    A1165ArbokCorner,
    /// Attaches 2 metal energy to one benched creature of the attacker's
    /// side, chosen by its owner.
    A2119DialgaExMetallicTurbo,
    /// Moves one creature of the same name from the deck to the bench.
    A2b001WeedleMultiply,
}

impl AttackId {
    /// The implemented attack at position `index` of the creature with the
    /// given identity, if there is one.
    pub open spec fn of_index(id: Seq<char>, index: int) -> Option<AttackId> {
        if id == "A1 003"@ && index == 1 {
            Some(AttackId::A1003VenusaurMegaDrain)
        } else if id == "A1 013"@ && index == 0 {
            Some(AttackId::A1013VileplumeSoothingScent)
        } else if id == "A1 017"@ && index == 0 {
            Some(AttackId::A1017VenomothPoisonPowder)
        } else if id == "A1 036"@ && index == 1 {
            Some(AttackId::A1036CharizardExCrimsonStorm)
        } else if id == "A1 165"@ && index == 0 {
            Some(AttackId::A1165ArbokCorner)
        } else if id == "A2 119"@ && index == 0 {
            Some(AttackId::A2119DialgaExMetallicTurbo)
        } else if id == "A2b 001"@ && index == 0 {
            Some(AttackId::A2b001WeedleMultiply)
        } else {
            None
        }
    }

    /// Looks up the attack at position `index` of a creature.
    pub fn from_pokemon_index(pokemon_id: &str, index: usize) -> (found: Option<AttackId>)
        ensures
            found == AttackId::of_index(pokemon_id@, index as int),
    {
        if str_eq(pokemon_id, "A1 003") && index == 1 {
            Some(AttackId::A1003VenusaurMegaDrain)
        } else if str_eq(pokemon_id, "A1 013") && index == 0 {
            Some(AttackId::A1013VileplumeSoothingScent)
        } else if str_eq(pokemon_id, "A1 017") && index == 0 {
            Some(AttackId::A1017VenomothPoisonPowder)
        } else if str_eq(pokemon_id, "A1 036") && index == 1 {
            Some(AttackId::A1036CharizardExCrimsonStorm)
        } else if str_eq(pokemon_id, "A1 165") && index == 0 {
            Some(AttackId::A1165ArbokCorner)
        } else if str_eq(pokemon_id, "A2 119") && index == 0 {
            Some(AttackId::A2119DialgaExMetallicTurbo)
        } else if str_eq(pokemon_id, "A2b 001") && index == 0 {
            Some(AttackId::A2b001WeedleMultiply)
        } else {
            None
        }
    }
}

} // verus!
