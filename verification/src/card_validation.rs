//! Which cards the engine can play in full.
//!
//! A card that declares an effect needs an implementation of it. The
//! classifier below tells whether a card has all that it needs, so that a
//! pool of cards can be reduced to those that are safe to play with.

use vstd::prelude::*;

use crate::ability_ids::AbilityId;
use crate::attack_ids::AttackId;
use crate::card_ids::CardId;
use crate::models::card::cards_view;
use crate::models::card::find_by_id;
use crate::models::card::first_with_id;
use crate::models::card::Card;
use crate::models::card::CardView;
use crate::models::card::PokemonCardView;
use crate::models::card::TrainerCardView;
use crate::models::card::TrainerType;
use crate::move_generation::move_generation_trainer::trainer_move_generation_implementation;
use crate::move_generation::move_generation_trainer::identity_rule;
use crate::move_generation::move_generation_trainer::trainer_rule;
use crate::state::State;
use crate::tool_ids::ToolId;

verus! {

/// How far a card is implemented.
#[derive(Clone, Copy, Debug, PartialEq, Eq, Structural)]
pub enum ImplementationStatus {
    Complete,
    CardNotFound,
    MissingAttack,
    MissingAbility,
    MissingTrainer,
    MissingTool,
}

impl ImplementationStatus {
    pub fn is_complete(&self) -> (b: bool)
        ensures
            b == (*self == ImplementationStatus::Complete),
    {
        matches!(self, ImplementationStatus::Complete)
    }

    /// The status in words.
    pub open spec fn description_text(self) -> Seq<char> {
        match self {
            ImplementationStatus::Complete => "Fully implemented"@,
            ImplementationStatus::CardNotFound => "Card ID not found"@,
            ImplementationStatus::MissingAttack => "Attack effect not implemented"@,
            ImplementationStatus::MissingAbility => "Ability not implemented"@,
            ImplementationStatus::MissingTrainer => "Trainer logic not implemented"@,
            ImplementationStatus::MissingTool => "Tool not implemented"@,
        }
    }

    pub fn description(&self) -> (text: &'static str)
        ensures
            text@ == self.description_text(),
    {
        match self {
            ImplementationStatus::Complete => "Fully implemented",
            ImplementationStatus::CardNotFound => "Card ID not found",
            ImplementationStatus::MissingAttack => "Attack effect not implemented",
            ImplementationStatus::MissingAbility => "Ability not implemented",
            ImplementationStatus::MissingTrainer => "Trainer logic not implemented",
            ImplementationStatus::MissingTool => "Tool not implemented",
        }
    }
}

/// Whether the attack at position `i` of a creature declares an effect that
/// the engine does not implement.
pub open spec fn attack_is_missing(creature: PokemonCardView, i: int) -> bool {
    creature.attacks[i].effect.is_some() && AttackId::of_index(creature.id, i).is_none()
}

/// The status of a creature: an attack with a declared effect and no
/// implementation comes first, then an ability without one.
pub open spec fn creature_status(creature: PokemonCardView) -> ImplementationStatus {
    if exists|i: int| 0 <= i < creature.attacks.len() && #[trigger] attack_is_missing(creature, i) {
        ImplementationStatus::MissingAttack
    } else if creature.ability.is_some() && AbilityId::of_id(creature.id).is_none() {
        ImplementationStatus::MissingAbility
    } else {
        ImplementationStatus::Complete
    }
}

/// The status of a trainer card: a tool needs an entry in the tool list;
/// any card needs a rule that says when it may be played. Whether a card
/// has such a rule does not depend on the state, so the rule is asked about
/// the state in which nothing has happened.
pub open spec fn trainer_status(trainer: TrainerCardView) -> ImplementationStatus {
    if trainer.trainer_card_type == TrainerType::Tool && ToolId::of_id(trainer.id).is_none() {
        ImplementationStatus::MissingTool
    } else if trainer_rule(State::empty_view(), trainer).is_none() {
        ImplementationStatus::MissingTrainer
    } else {
        ImplementationStatus::Complete
    }
}

/// The status of a card.
pub open spec fn status_of(card: CardView) -> ImplementationStatus {
    match card {
        CardView::Pokemon(creature) => creature_status(creature),
        CardView::Trainer(trainer) => trainer_status(trainer),
    }
}

/// A creature that declares an ability without an implementation is
/// reported as missing its ability, provided that none of its attacks is
/// missing an implementation, which would be reported first.
pub proof fn lemma_ability_without_implementation(creature: PokemonCardView)
    requires
        creature.ability.is_some(),
        AbilityId::of_id(creature.id).is_none(),
        forall|i: int| 0 <= i < creature.attacks.len() ==> !attack_is_missing(creature, i),
    ensures
        status_of(CardView::Pokemon(creature)) == ImplementationStatus::MissingAbility,
{
}

/// A tool without an entry in the tool list is reported as a missing tool.
pub proof fn lemma_tool_without_implementation(trainer: TrainerCardView)
    requires
        trainer.trainer_card_type == TrainerType::Tool,
        ToolId::of_id(trainer.id).is_none(),
    ensures
        status_of(CardView::Trainer(trainer)) == ImplementationStatus::MissingTool,
{
}

/// Whether a card has every implementation that it needs: for a creature,
/// one for each attack that declares an effect and one for its ability if
/// it declares one; for a tool, an entry in the tool list; for any other
/// trainer card, a rule by its identity.
pub open spec fn has_all_it_needs(card: CardView) -> bool {
    match card {
        CardView::Pokemon(creature) => {
            &&& forall|i: int|
                0 <= i < creature.attacks.len() && creature.attacks[i].effect.is_some()
                    ==> (#[trigger] AttackId::of_index(creature.id, i)).is_some()
            &&& creature.ability.is_some() ==> AbilityId::of_id(creature.id).is_some()
        },
        CardView::Trainer(trainer) => if trainer.trainer_card_type == TrainerType::Tool {
            ToolId::of_id(trainer.id).is_some()
        } else {
            match CardId::of_id(trainer.id) {
                Some(id) => identity_rule(State::empty_view(), trainer, id).is_some(),
                None => false,
            }
        },
    }
}

/// A card is reported as complete exactly when it has every
/// implementation that it needs.
pub proof fn lemma_complete_means_nothing_is_missing(card: CardView)
    ensures
        status_of(card) == ImplementationStatus::Complete <==> has_all_it_needs(card),
{
    match card {
        CardView::Pokemon(creature) => {
            if has_all_it_needs(card) {
                assert forall|i: int| 0 <= i < creature.attacks.len() implies !attack_is_missing(
                    creature,
                    i,
                ) by {
                    if creature.attacks[i].effect.is_some() {
                        assert(AttackId::of_index(creature.id, i).is_some());
                    }
                }
            } else if creature_status(creature) == ImplementationStatus::Complete {
                assert forall|i: int|
                    0 <= i < creature.attacks.len() && creature.attacks[i].effect.is_some() implies (
                #[trigger] AttackId::of_index(creature.id, i)).is_some() by {
                    assert(!attack_is_missing(creature, i));
                }
            }
        },
        CardView::Trainer(trainer) => {},
    }
}

/// Classifies one card.
pub fn card_implementation_status(card: &Card) -> (status: ImplementationStatus)
    ensures
        status == status_of(card@),
        status != ImplementationStatus::CardNotFound,
{
    match card {
        Card::Pokemon(pokemon) => {
            let mut index: usize = 0;
            while index < pokemon.attacks.len()
                invariant
                    index <= pokemon.attacks.len(),
                    card@ == CardView::Pokemon(pokemon@),
                    pokemon@.attacks.len() == pokemon.attacks.len(),
                    forall|j: int| 0 <= j < index ==> !attack_is_missing(pokemon@, j),
                decreases pokemon.attacks.len() - index,
            {
                let attack = &pokemon.attacks[index];
                assert(pokemon@.attacks[index as int] == attack@);
                if attack.effect.is_some() && AttackId::from_pokemon_index(
                    pokemon.id.as_str(),
                    index,
                ).is_none() {
                    assert(attack_is_missing(pokemon@, index as int));
                    return ImplementationStatus::MissingAttack;
                }
                index += 1;
            }
            if pokemon.ability.is_some() && AbilityId::from_pokemon_id(
                pokemon.id.as_str(),
            ).is_none() {
                return ImplementationStatus::MissingAbility;
            }
        },
        Card::Trainer(trainer_card) => {
            if trainer_card.trainer_card_type == TrainerType::Tool && ToolId::from_trainer_card(
                trainer_card,
            ).is_none() {
                return ImplementationStatus::MissingTool;
            }
            let probe = State::default();
            let moves = trainer_move_generation_implementation(&probe, trainer_card);
            if moves.is_none() {
                return ImplementationStatus::MissingTrainer;
            }
        },
    }
    ImplementationStatus::Complete
}

/// Looks a card up by identity in a pool of cards and classifies it. An
/// identity that the pool does not hold is reported as not found.
pub fn get_implementation_status(cards: &Vec<Card>, card_id: &str) -> (status: ImplementationStatus)
    ensures
        status == match first_with_id(cards_view(cards@), card_id@) {
            Some(k) => status_of(cards_view(cards@)[k]),
            None => ImplementationStatus::CardNotFound,
        },
{
    match find_by_id(cards, card_id) {
        Some(k) => {
            let status = card_implementation_status(&cards[k]);
            assert(cards_view(cards@)[k as int] == cards@[k as int]@);
            status
        },
        None => ImplementationStatus::CardNotFound,
    }
}

} // verus!
