//! Small rules that several parts of the engine share.

use vstd::prelude::*;

use crate::models::card::Card;
use crate::models::card::CardView;
use crate::models::card::EnergyType;
use crate::models::played_card::effective_energy;
use crate::models::played_card::PlayedCard;
use crate::models::played_card::PlayedCardView;
use crate::state::State;
use crate::text::str_eq;

verus! {

/// The card as it enters play: at full health, with nothing attached.
pub fn to_playable_card(card: &Card, played_this_turn: bool) -> (played: PlayedCard)
    requires
        card is Pokemon,
    ensures
        played@ == (PlayedCardView {
            card: card@,
            remaining_hp: card->Pokemon_0.hp,
            total_hp: card->Pokemon_0.hp,
            attached_energy: Seq::empty(),
            attached_tool: None,
            played_this_turn,
            ability_used: false,
            poisoned: false,
            paralyzed: false,
            asleep: false,
            cards_behind: Seq::empty(),
            effects: Seq::empty(),
        }),
{
    let total_hp = match card {
        Card::Pokemon(pokemon_card) => pokemon_card.hp,
        Card::Trainer(_) => 0,
    };
    let played = PlayedCard::new(
        card.clone(),
        total_hp,
        total_hp,
        Vec::new(),
        played_this_turn,
        Vec::new(),
    );
    assert(played@.cards_behind =~= Seq::empty());
    played
}

/// The number of energies of one type in a list.
pub open spec fn count_of(energies: Seq<EnergyType>, energy: EnergyType) -> nat
    decreases energies.len(),
{
    if energies.len() == 0 {
        0
    } else {
        count_of(energies.drop_last(), energy) + if energies.last() == energy {
            1nat
        } else {
            0nat
        }
    }
}

/// Whether the attached energies pay a cost: for every type but colorless
/// there are at least as many attached as the cost asks for, and there are
/// at least as many energies in all as the cost has, so that what is left
/// can pay the colorless part.
pub open spec fn pays(attached: Seq<EnergyType>, cost: Seq<EnergyType>) -> bool {
    &&& cost.len() <= attached.len()
    &&& forall|energy: EnergyType|
        energy != EnergyType::Colorless ==> count_of(cost, energy) <= count_of(attached, energy)
}

/// Counts the energies of one type in a list.
pub fn count_energy(energies: &Vec<EnergyType>, energy: EnergyType) -> (count: usize)
    ensures
        count == count_of(energies@, energy),
{
    let mut count: usize = 0;
    let mut i: usize = 0;
    while i < energies.len()
        invariant
            i <= energies.len(),
            count <= i,
            count == count_of(energies@.take(i as int), energy),
        decreases energies.len() - i,
    {
        proof {
            assert(energies@.take(i + 1).drop_last() =~= energies@.take(i as int));
        }
        if energies[i] == energy {
            count += 1;
        }
        i += 1;
    }
    proof {
        assert(energies@.take(energies.len() as int) =~= energies@);
    }
    count
}

/// Whether a list of energies has enough of one type for a cost.
fn has_enough(attached: &Vec<EnergyType>, cost: &Vec<EnergyType>, energy: EnergyType) -> (ok: bool)
    ensures
        ok == (count_of(cost@, energy) <= count_of(attached@, energy)),
{
    count_energy(cost, energy) <= count_energy(attached, energy)
}

/// Whether a list of energies pays a cost.
pub fn energies_pay(attached: &Vec<EnergyType>, cost: &Vec<EnergyType>) -> (ok: bool)
    ensures
        ok == pays(attached@, cost@),
{
    let ok = cost.len() <= attached.len() && has_enough(attached, cost, EnergyType::Grass)
        && has_enough(attached, cost, EnergyType::Fire) && has_enough(
        attached,
        cost,
        EnergyType::Water,
    ) && has_enough(attached, cost, EnergyType::Lightning) && has_enough(
        attached,
        cost,
        EnergyType::Psychic,
    ) && has_enough(attached, cost, EnergyType::Fighting) && has_enough(
        attached,
        cost,
        EnergyType::Darkness,
    ) && has_enough(attached, cost, EnergyType::Metal) && has_enough(
        attached,
        cost,
        EnergyType::Dragon,
    );
    proof {
        if ok {
            assert forall|energy: EnergyType| energy != EnergyType::Colorless implies count_of(
                cost@,
                energy,
            ) <= count_of(attached@, energy) by {
                match energy {
                    EnergyType::Grass => {},
                    EnergyType::Fire => {},
                    EnergyType::Water => {},
                    EnergyType::Lightning => {},
                    EnergyType::Psychic => {},
                    EnergyType::Fighting => {},
                    EnergyType::Darkness => {},
                    EnergyType::Metal => {},
                    EnergyType::Dragon => {},
                    EnergyType::Colorless => {},
                }
            }
        }
    }
    ok
}

/// Whether the energy attached to a card in play pays a cost, with grass
/// energy counted twice where the card's side has the ability for it.
pub fn contains_energy(
    pokemon: &PlayedCard,
    cost: &Vec<EnergyType>,
    state: &State,
    player: usize,
) -> (ok: bool)
    requires
        player < 2,
    ensures
        ok == pays(effective_energy(pokemon@, state@, player as int), cost@),
{
    let attached = pokemon.get_effective_attached_energy(state, player);
    energies_pay(&attached, cost)
}

/// Whether a supporter may still be played this turn.
pub fn can_play_support(state: &State) -> (ok: bool)
    ensures
        ok == !state@.has_played_support,
{
    !state.has_played_support
}

/// The evolutionary stage of a card: a trainer card counts as stage 0.
pub open spec fn stage_of(card: CardView) -> u8 {
    match card {
        CardView::Pokemon(p) => p.stage,
        CardView::Trainer(_) => 0,
    }
}

/// The evolutionary stage of a card in play.
pub fn get_stage(played_card: &PlayedCard) -> (stage: u8)
    ensures
        stage == stage_of(played_card@.card),
{
    match &played_card.card {
        Card::Pokemon(pokemon_card) => pokemon_card.stage,
        Card::Trainer(_) => 0,
    }
}

/// Whether a name is that of an ultra beast.
pub open spec fn ultra_beast_name(name: Seq<char>) -> bool {
    ||| name == "Buzzwole ex"@
    ||| name == "Blacephalon"@
    ||| name == "Kartana"@
    ||| name == "Pheromosa"@
    ||| name == "Xurkitree"@
    ||| name == "Nihilego"@
    ||| name == "Guzzlord ex"@
    ||| name == "Poipole"@
    ||| name == "Naganadel"@
    ||| name == "Stakataka"@
    ||| name == "Celesteela"@
}

/// Whether a creature with the given name is an ultra beast.
pub fn is_ultra_beast(pokemon_name: &str) -> (b: bool)
    ensures
        b == ultra_beast_name(pokemon_name@),
{
    str_eq(pokemon_name, "Buzzwole ex") || str_eq(pokemon_name, "Blacephalon") || str_eq(
        pokemon_name,
        "Kartana",
    ) || str_eq(pokemon_name, "Pheromosa") || str_eq(pokemon_name, "Xurkitree") || str_eq(
        pokemon_name,
        "Nihilego",
    ) || str_eq(pokemon_name, "Guzzlord ex") || str_eq(pokemon_name, "Poipole") || str_eq(
        pokemon_name,
        "Naganadel",
    ) || str_eq(pokemon_name, "Stakataka") || str_eq(pokemon_name, "Celesteela")
}

} // verus!
