//! The tools that the engine can carry out, found by the identity of their
//! trainer card.

use vstd::prelude::*;

use crate::models::card::EnergyType;
use crate::models::card::TrainerCard;
use crate::models::played_card::PlayedCard;
use crate::models::played_card::PlayedCardView;
use crate::state::State;
use crate::text::str_eq;

verus! {

/// An implemented tool.
#[derive(Clone, Copy, Debug, PartialEq, Eq, Hash, Structural)]
pub enum ToolId {
    /// Adds 20 to the health of its bearer.
    A2147GiantCape,
    /// Deals 20 damage to an attacker that damages its bearer.
    A2148RockyHelmet,
    /// Adds 30 to the health of its bearer, a grass creature.
    A3147LeafCape,
    /// Makes the retreat of its bearer, a water creature, cost one energy
    /// less.
    A4a067InflatableBoat,
}

impl ToolId {
    /// The implemented tool with the given identity.
    pub open spec fn of_id(id: Seq<char>) -> Option<ToolId> {
        if id == "A2 147"@ {
            Some(ToolId::A2147GiantCape)
        } else if id == "A2 148"@ {
            Some(ToolId::A2148RockyHelmet)
        } else if id == "A3 147"@ {
            Some(ToolId::A3147LeafCape)
        } else if id == "A4a 067"@ {
            Some(ToolId::A4a067InflatableBoat)
        } else {
            None
        }
    }

    /// Looks up the tool of a trainer card.
    pub fn from_trainer_card(trainer_card: &TrainerCard) -> (found: Option<ToolId>)
        ensures
            found == ToolId::of_id(trainer_card@.id),
    {
        let id = trainer_card.id.as_str();
        if str_eq(id, "A2 147") {
            Some(ToolId::A2147GiantCape)
        } else if str_eq(id, "A2 148") {
            Some(ToolId::A2148RockyHelmet)
        } else if str_eq(id, "A3 147") {
            Some(ToolId::A3147LeafCape)
        } else if str_eq(id, "A4a 067") {
            Some(ToolId::A4a067InflatableBoat)
        } else {
            None
        }
    }

    /// Whether the tool may be attached to a card with the given element:
    /// two tools are restricted to one element, the others go anywhere.
    pub open spec fn fits(self, element: Option<EnergyType>) -> bool {
        match self {
            ToolId::A3147LeafCape => element == Some(EnergyType::Grass),
            ToolId::A4a067InflatableBoat => element == Some(EnergyType::Water),
            ToolId::A2147GiantCape | ToolId::A2148RockyHelmet => true,
        }
    }

    /// Whether the tool can go on a card in play: the card has no tool yet
    /// and the tool fits its element.
    pub open spec fn is_choice(self, card: PlayedCardView) -> bool {
        card.attached_tool.is_none() && self.fits(card.card.energy_type())
    }

    /// Whether the tool may be attached to a card, as far as the card's
    /// element goes.
    pub fn can_attach_to(&self, pokemon: &PlayedCard) -> (ok: bool)
        ensures
            ok == self.fits(pokemon@.card.energy_type()),
    {
        match self {
            ToolId::A3147LeafCape => pokemon.card.get_type() == Some(EnergyType::Grass),
            ToolId::A4a067InflatableBoat => pokemon.card.get_type() == Some(EnergyType::Water),
            ToolId::A2147GiantCape | ToolId::A2148RockyHelmet => true,
        }
    }

    /// Whether `found` lists exactly the slots of one side whose card can
    /// take the tool, in slot order, each with its card.
    pub open spec fn lists_choices(
        self,
        side: [Option<PlayedCard>; 4],
        found: Seq<(usize, &PlayedCard)>,
    ) -> bool {
        &&& forall|k: int|
            0 <= k < found.len() ==> (#[trigger] found[k]).0 < 4 && side[found[k].0 as int] == Some(
                *found[k].1,
            ) && self.is_choice(found[k].1@)
        &&& forall|k: int, l: int|
            0 <= k < l < found.len() ==> (#[trigger] found[k]).0 < (#[trigger] found[l]).0
        &&& forall|j: int|
            0 <= j < 4 && side[j].is_some() && self.is_choice(side[j].unwrap()@) ==> exists|k: int|
                0 <= k < found.len() && (#[trigger] found[k]).0 == j
    }

    /// The cards in play of a player that can take the tool, each with its
    /// slot, in slot order.
    pub fn enumerate_choices<'a>(&self, state: &'a State, actor: usize) -> (found: Vec<
        (usize, &'a PlayedCard),
    >)
        requires
            actor < 2,
        ensures
            self.lists_choices(state.in_play_pokemon[actor as int], found@),
    {
        let mut found: Vec<(usize, &PlayedCard)> = Vec::new();
        let mut i: usize = 0;
        while i < 4
            invariant
                actor < 2,
                i <= 4,
                forall|k: int|
                    0 <= k < found@.len() ==> (#[trigger] found@[k]).0 < i
                        && state.in_play_pokemon[actor as int][found@[k].0 as int] == Some(
                        *found@[k].1,
                    ) && self.is_choice(found@[k].1@),
                forall|k: int, l: int|
                    0 <= k < l < found@.len() ==> (#[trigger] found@[k]).0 < (#[trigger] found@[l]).0,
                forall|j: int|
                    0 <= j < i && state.in_play_pokemon[actor as int][j].is_some() && self.is_choice(
                        state.in_play_pokemon[actor as int][j].unwrap()@,
                    ) ==> exists|k: int| 0 <= k < found@.len() && (#[trigger] found@[k]).0 == j,
            decreases 4 - i,
        {
            match &state.in_play_pokemon[actor][i] {
                Some(card) => {
                    if !card.has_tool_attached() && self.can_attach_to(card) {
                        let ghost before = found@;
                        found.push((i, card));
                        proof {
                            assert(found@[before.len() as int].0 == i);
                            assert forall|j: int|
                                0 <= j < i + 1 && state.in_play_pokemon[actor as int][j].is_some()
                                    && self.is_choice(
                                    state.in_play_pokemon[actor as int][j].unwrap()@,
                                ) implies exists|k: int|
                                0 <= k < found@.len() && (#[trigger] found@[k]).0 == j by {
                                if j < i {
                                    let k = choose|k: int|
                                        0 <= k < before.len() && (#[trigger] before[k]).0 == j;
                                    assert(found@[k] == before[k]);
                                }
                            }
                        }
                    }
                },
                None => {},
            }
            i += 1;
        }
        found
    }
}

} // verus!
