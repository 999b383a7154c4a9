//! When a trainer card may be played.
//!
//! Every function here answers in one of three ways: `None` when the engine
//! has no rule for the card, an empty list when the card has a rule that the
//! state does not meet, and a list with the one move that plays the card
//! when it does.

use vstd::prelude::*;

use crate::actions::types::simple_actions_view;
use crate::actions::types::SimpleAction;
use crate::actions::types::SimpleActionView;
use crate::card_ids::CardId;
use crate::card_logic::can_rare_candy_evolve;
use crate::card_logic::rare_candy_evolves;
use crate::hooks::can_play_support;
use crate::models::card::cards_view;
use crate::models::card::Card;
use crate::models::card::CardView;
use crate::models::card::EnergyType;
use crate::models::card::TrainerCard;
use crate::models::card::TrainerCardView;
use crate::models::card::TrainerType;
use crate::models::played_card::PlayedCard;
use crate::models::played_card::PlayedCardView;
use crate::slot_rules::any_slot_meets;
use crate::slot_rules::slot_meets;
use crate::slot_rules::some_slot_meets;
use crate::slot_rules::SlotRule;
use crate::state::State;
use crate::state::StateView;
use crate::text::str_eq;
use crate::tool_ids::ToolId;

verus! {

/// What a rule answers: no rule, or the moves that it allows.
pub type Moves = Option<Vec<SimpleAction>>;

/// An answer as contracts see it.
pub type MovesView = Option<Seq<SimpleActionView>>;

/// View of an answer.
pub open spec fn moves_view(moves: Moves) -> MovesView {
    match moves {
        Some(list) => Some(simple_actions_view(list@)),
        None => None,
    }
}

/// The answer "the card may be played".
pub open spec fn playable(card: TrainerCardView) -> MovesView {
    Some(seq![SimpleActionView::Play { trainer_card: card }])
}

/// The answer "the card has a rule, and the state does not meet it".
pub open spec fn not_playable() -> MovesView {
    Some(Seq::empty())
}

/// The answer of a rule that asks for one condition.
pub open spec fn playable_if(cond: bool, card: TrainerCardView) -> MovesView {
    if cond {
        playable(card)
    } else {
        not_playable()
    }
}

/// The move that plays a card, as the only legal move.
fn can_play_trainer(_state: &State, trainer_card: &TrainerCard) -> (moves: Moves)
    ensures
        moves_view(moves) == playable(trainer_card@),
{
    let mut list: Vec<SimpleAction> = Vec::new();
    list.push(SimpleAction::Play { trainer_card: trainer_card.clone() });
    assert(simple_actions_view(list@) =~= seq![
        SimpleActionView::Play { trainer_card: trainer_card@ },
    ]);
    Some(list)
}

/// No legal move.
fn cannot_play_trainer() -> (moves: Moves)
    ensures
        moves_view(moves) == not_playable(),
{
    let list: Vec<SimpleAction> = Vec::new();
    assert(simple_actions_view(list@) =~= Seq::empty());
    Some(list)
}

/// The answer of a rule that asks for one condition.
fn play_if(cond: bool, state: &State, trainer_card: &TrainerCard) -> (moves: Moves)
    ensures
        moves_view(moves) == playable_if(cond, trainer_card@),
{
    if cond {
        can_play_trainer(state, trainer_card)
    } else {
        cannot_play_trainer()
    }
}

/// The two rules that hold for every trainer card, whatever it does: none
/// is played during setup, and at most one supporter is played each turn.
pub open spec fn blocked_for_all(state: StateView, card: TrainerCardView) -> bool {
    state.turn_count == 0 || (card.trainer_card_type == TrainerType::Supporter
        && state.has_played_support)
}

/// The moves that play a trainer card: none while a rule for all trainer
/// cards blocks it, otherwise what the card's own rule allows.
pub open spec fn trainer_moves(state: StateView, card: TrainerCardView) -> MovesView {
    if blocked_for_all(state, card) {
        not_playable()
    } else {
        trainer_rule(state, card)
    }
}

/// The moves that play a trainer card in a state.
pub fn generate_possible_trainer_actions(state: &State, trainer_card: &TrainerCard) -> (moves: Moves)
    requires
        state@.current_player < 2,
    ensures
        moves_view(moves) == trainer_moves(state@, trainer_card@),
{
    if state.turn_count == 0 {
        return cannot_play_trainer();
    }
    if trainer_card.trainer_card_type == TrainerType::Supporter && !can_play_support(state) {
        return cannot_play_trainer();
    }
    trainer_move_generation_implementation(state, trainer_card)
}

/// What a trainer card's own rule allows. A tool goes by the tool list;
/// every other card goes by its identity.
pub open spec fn trainer_rule(state: StateView, card: TrainerCardView) -> MovesView {
    if card.trainer_card_type == TrainerType::Tool {
        tool_rule(state, card)
    } else {
        match CardId::of_id(card.id) {
            Some(id) => identity_rule(state, card, id),
            None => None,
        }
    }
}

/// The rule of each card that the engine knows by identity.
pub open spec fn identity_rule(state: StateView, card: TrainerCardView, id: CardId) -> MovesView {
    let me = state.current_player as int;
    let other = StateView::opponent(me);
    match id {
        CardId::PA001Potion => playable_if(some_slot_meets(state, me, 0, SlotRule::Damaged), card),
        CardId::A1219Erika | CardId::A1266Erika | CardId::A4b328Erika | CardId::A4b329Erika => {
            playable_if(some_slot_meets(state, me, 0, SlotRule::DamagedGrass), card)
        },
        CardId::A1220Misty | CardId::A1267Misty => playable_if(
            state.count_of_type(me, 4, EnergyType::Water) > 0,
            card,
        ),
        CardId::A2a072Irida | CardId::A2a087Irida | CardId::A4b330Irida | CardId::A4b331Irida => {
            playable_if(some_slot_meets(state, me, 0, SlotRule::DamagedWithWater), card)
        },
        CardId::A3155Lillie
        | CardId::A3197Lillie
        | CardId::A3209Lillie
        | CardId::A4b348Lillie
        | CardId::A4b349Lillie
        | CardId::A4b374Lillie => playable_if(
            some_slot_meets(state, me, 0, SlotRule::DamagedStage2),
            card,
        ),
        CardId::A1222Koga | CardId::A1269Koga => playable_if(koga_allows(state), card),
        CardId::A1225Sabrina
        | CardId::A1272Sabrina
        | CardId::A4b338Sabrina
        | CardId::A4b339Sabrina => playable_if(
            some_slot_meets(state, other, 1, SlotRule::Occupied),
            card,
        ),
        CardId::A2150Cyrus | CardId::A2190Cyrus | CardId::A4b326Cyrus | CardId::A4b327Cyrus => {
            playable_if(some_slot_meets(state, other, 1, SlotRule::Damaged), card)
        },
        CardId::A2155Mars | CardId::A2195Mars | CardId::A4b344Mars | CardId::A4b345Mars => {
            playable(card)
        },
        CardId::A3144RareCandy
        | CardId::A4b314RareCandy
        | CardId::A4b315RareCandy
        | CardId::A4b379RareCandy => playable_if(rare_candy_allows(state), card),
        CardId::A2b070PokemonCenterLady | CardId::A2b089PokemonCenterLady => playable_if(
            some_slot_meets(state, me, 0, SlotRule::DamagedOrAffected),
            card,
        ),
        CardId::A4151ElementalSwitch
        | CardId::A4b310ElementalSwitch
        | CardId::A4b311ElementalSwitch => playable_if(
            state.active(me).is_some() && some_slot_meets(
                state,
                me,
                1,
                SlotRule::HoldsSwitchableEnergy,
            ),
            card,
        ),
        CardId::A3a064Repel => playable_if(repel_allows(state), card),
        CardId::A2146PokemonCommunication
        | CardId::A4b316PokemonCommunication
        | CardId::A4b317PokemonCommunication => playable_if(
            holds_creature(state.hands[me]) && holds_creature(state.decks[me].cards),
            card,
        ),
        CardId::A3a067Gladion | CardId::A3a081Gladion => playable_if(gladion_allows(state), card),
        CardId::A3a069Lusamine
        | CardId::A3a083Lusamine
        | CardId::A4b350Lusamine
        | CardId::A4b351Lusamine
        | CardId::A4b375Lusamine => playable_if(lusamine_allows(state), card),
        CardId::A4157Lyra | CardId::A4197Lyra | CardId::A4b332Lyra | CardId::A4b333Lyra => {
            playable_if(lyra_allows(state), card)
        },
        CardId::A4158Silver
        | CardId::A4198Silver
        | CardId::A4b336Silver
        | CardId::A4b337Silver
        | CardId::PA002XSpeed
        | CardId::PA005PokeBall
        | CardId::A2b111PokeBall
        | CardId::PA006RedCard
        | CardId::PA007ProfessorsResearch
        | CardId::A4b373ProfessorsResearch
        | CardId::A1223Giovanni
        | CardId::A1270Giovanni
        | CardId::A4b334Giovanni
        | CardId::A4b335Giovanni
        | CardId::A1a065MythicalSlab
        | CardId::A1a068Leaf
        | CardId::A1a082Leaf
        | CardId::A4b346Leaf
        | CardId::A4b347Leaf
        | CardId::A2b071Red
        | CardId::A2b090Red
        | CardId::A4b352Red
        | CardId::A4b353Red => playable(card),
        CardId::A3b066EeveeBag
        | CardId::A3b107EeveeBag
        | CardId::A4b308EeveeBag
        | CardId::A4b309EeveeBag => playable_if(
            some_slot_meets(state, me, 0, SlotRule::EeveeEvolution),
            card,
        ),
        CardId::A1175Muk | CardId::A1177Weezing | CardId::A1243Weezing => None,
    }
}

/// The moves that a trainer card's own rule allows, without the rules that
/// hold for all trainer cards. `None` means that the engine has no rule for
/// the card, so that a caller can find out which cards are supported.
pub fn trainer_move_generation_implementation(state: &State, trainer_card: &TrainerCard) -> (moves:
    Moves)
    requires
        state@.current_player < 2,
    ensures
        moves_view(moves) == trainer_rule(state@, trainer_card@),
{
    if trainer_card.trainer_card_type == TrainerType::Tool {
        return can_play_tool(state, trainer_card);
    }
    let trainer_id = match CardId::from_card_id(trainer_card.id.as_str()) {
        Some(id) => id,
        None => {
            return None;
        },
    };
    match trainer_id {
        CardId::PA001Potion => can_play_potion(state, trainer_card),
        CardId::A1219Erika | CardId::A1266Erika | CardId::A4b328Erika | CardId::A4b329Erika => {
            can_play_erika(state, trainer_card)
        },
        CardId::A1220Misty | CardId::A1267Misty => can_play_misty(state, trainer_card),
        CardId::A2a072Irida | CardId::A2a087Irida | CardId::A4b330Irida | CardId::A4b331Irida => {
            can_play_irida(state, trainer_card)
        },
        CardId::A3155Lillie
        | CardId::A3197Lillie
        | CardId::A3209Lillie
        | CardId::A4b348Lillie
        | CardId::A4b349Lillie
        | CardId::A4b374Lillie => can_play_lillie(state, trainer_card),
        CardId::A1222Koga | CardId::A1269Koga => can_play_koga(state, trainer_card),
        CardId::A1225Sabrina
        | CardId::A1272Sabrina
        | CardId::A4b338Sabrina
        | CardId::A4b339Sabrina => can_play_sabrina(state, trainer_card),
        CardId::A2150Cyrus | CardId::A2190Cyrus | CardId::A4b326Cyrus | CardId::A4b327Cyrus => {
            can_play_cyrus(state, trainer_card)
        },
        CardId::A2155Mars | CardId::A2195Mars | CardId::A4b344Mars | CardId::A4b345Mars => {
            can_play_trainer(state, trainer_card)
        },
        CardId::A3144RareCandy
        | CardId::A4b314RareCandy
        | CardId::A4b315RareCandy
        | CardId::A4b379RareCandy => can_play_rare_candy(state, trainer_card),
        CardId::A2b070PokemonCenterLady | CardId::A2b089PokemonCenterLady => {
            can_play_pokemon_center_lady(state, trainer_card)
        },
        CardId::A4151ElementalSwitch
        | CardId::A4b310ElementalSwitch
        | CardId::A4b311ElementalSwitch => can_play_elemental_switch(state, trainer_card),
        CardId::A3a064Repel => can_play_repel(state, trainer_card),
        CardId::A2146PokemonCommunication
        | CardId::A4b316PokemonCommunication
        | CardId::A4b317PokemonCommunication => can_play_pokemon_communication(state, trainer_card),
        CardId::A3a067Gladion | CardId::A3a081Gladion => can_play_gladion(state, trainer_card),
        CardId::A3a069Lusamine
        | CardId::A3a083Lusamine
        | CardId::A4b350Lusamine
        | CardId::A4b351Lusamine
        | CardId::A4b375Lusamine => can_play_lusamine(state, trainer_card),
        CardId::A4157Lyra | CardId::A4197Lyra | CardId::A4b332Lyra | CardId::A4b333Lyra => {
            can_play_lyra(state, trainer_card)
        },
        CardId::A4158Silver
        | CardId::A4198Silver
        | CardId::A4b336Silver
        | CardId::A4b337Silver
        | CardId::PA002XSpeed
        | CardId::PA005PokeBall
        | CardId::A2b111PokeBall
        | CardId::PA006RedCard
        | CardId::PA007ProfessorsResearch
        | CardId::A4b373ProfessorsResearch
        | CardId::A1223Giovanni
        | CardId::A1270Giovanni
        | CardId::A4b334Giovanni
        | CardId::A4b335Giovanni
        | CardId::A1a065MythicalSlab
        | CardId::A1a068Leaf
        | CardId::A1a082Leaf
        | CardId::A4b346Leaf
        | CardId::A4b347Leaf
        | CardId::A2b071Red
        | CardId::A2b090Red
        | CardId::A4b352Red
        | CardId::A4b353Red => can_play_trainer(state, trainer_card),
        CardId::A3b066EeveeBag
        | CardId::A3b107EeveeBag
        | CardId::A4b308EeveeBag
        | CardId::A4b309EeveeBag => can_play_eevee_bag(state, trainer_card),
        CardId::A1175Muk | CardId::A1177Weezing | CardId::A1243Weezing => None,
    }
}

/// Whether the card in a slot can take a tool.
pub open spec fn slot_takes_tool(state: StateView, player: int, idx: int, tool: ToolId) -> bool {
    match state.in_play(player, idx) {
        Some(card) => tool.is_choice(card),
        None => false,
    }
}

/// The rule of a tool: no rule for a tool that the engine does not know;
/// otherwise playable when some card in play of the player has no tool yet
/// and is one that the tool fits.
pub open spec fn tool_rule(state: StateView, card: TrainerCardView) -> MovesView {
    match ToolId::of_id(card.id) {
        Some(tool) => playable_if(
            exists|i: int|
                0 <= i < 4 && #[trigger] slot_takes_tool(
                    state,
                    state.current_player as int,
                    i,
                    tool,
                ),
            card,
        ),
        None => None,
    }
}

fn can_play_tool(state: &State, trainer_card: &TrainerCard) -> (moves: Moves)
    requires
        state@.current_player < 2,
    ensures
        moves_view(moves) == tool_rule(state@, trainer_card@),
{
    let tool_id = match ToolId::from_trainer_card(trainer_card) {
        Some(tool_id) => tool_id,
        None => {
            return None;
        },
    };
    let player = state.current_player;
    let choices = tool_id.enumerate_choices(state, player);
    let valid_targets = choices.len();
    proof {
        let side = state.in_play_pokemon[player as int];
        if valid_targets > 0 {
            let slot = choices@[0].0 as int;
            assert(state@.in_play(player as int, slot) == Some(choices@[0].1@));
            assert(slot_takes_tool(state@, player as int, slot, tool_id));
        } else {
            assert forall|i: int| 0 <= i < 4 implies !#[trigger] slot_takes_tool(
                state@,
                player as int,
                i,
                tool_id,
            ) by {
                if side[i].is_some() {
                    assert(state@.in_play(player as int, i) == Some(side[i].unwrap()@));
                } else {
                    assert(state@.in_play(player as int, i).is_none());
                }
            }
        }
    }
    play_if(valid_targets > 0, state, trainer_card)
}

/// A rule asked twice about the same state gives the same answer: every
/// answer that the rule can give for a state and a card is the one that the
/// state and the card determine.
pub proof fn lemma_trainer_rule_is_pure(state: State, card: TrainerCard, first: Moves, second: Moves)
    requires
        moves_view(first) == trainer_moves(state@, card@),
        moves_view(second) == trainer_moves(state@, card@),
    ensures
        moves_view(first) == moves_view(second),
        first.is_some() == second.is_some(),
        first.is_some() ==> first.unwrap()@.len() == second.unwrap()@.len(),
{
    if first.is_some() {
        assert(simple_actions_view(first.unwrap()@).len() == first.unwrap()@.len());
        assert(simple_actions_view(second.unwrap()@).len() == second.unwrap()@.len());
    }
}

/// A rule follows the state: where one card in play of the player to move
/// is damaged and no other is, the healing item is playable, and once
/// that card is back at full health it is not.
pub proof fn lemma_potion_follows_the_damage(state: StateView, card: TrainerCardView, idx: int)
    requires
        state.shaped(),
        state.current_player < 2,
        0 <= idx < 4,
        card.trainer_card_type != TrainerType::Tool,
        CardId::of_id(card.id) == Some(CardId::PA001Potion),
        !blocked_for_all(state, card),
        slot_meets(state, state.current_player as int, idx, SlotRule::Damaged),
        forall|j: int|
            0 <= j < 4 && j != idx ==> !slot_meets(
                state,
                state.current_player as int,
                j,
                SlotRule::Damaged,
            ),
    ensures
        trainer_moves(state, card) == playable(card),
        ({
            let me = state.current_player as int;
            let hurt = state.in_play(me, idx).unwrap();
            let well = PlayedCardView { remaining_hp: hurt.total_hp, ..hurt };
            trainer_moves(state.set_slot(me, idx, Some(well)), card) == not_playable()
        }),
{
    let me = state.current_player as int;
    let hurt = state.in_play(me, idx).unwrap();
    let well = PlayedCardView { remaining_hp: hurt.total_hp, ..hurt };
    let after = state.set_slot(me, idx, Some(well));
    assert(some_slot_meets(state, me, 0, SlotRule::Damaged));
    assert forall|j: int| 0 <= j < 4 implies !slot_meets(after, me, j, SlotRule::Damaged) by {
        if j != idx {
            assert(after.in_play(me, j) == state.in_play(me, j));
            assert(!slot_meets(state, me, j, SlotRule::Damaged));
        } else {
            assert(after.in_play(me, j) == Some(well));
            assert(!well.is_damaged());
        }
    }
    assert(!some_slot_meets(after, me, 0, SlotRule::Damaged));
    assert(!blocked_for_all(after, card));
}

fn can_play_potion(state: &State, trainer_card: &TrainerCard) -> (moves: Moves)
    requires
        state@.current_player < 2,
    ensures
        moves_view(moves) == playable_if(
            some_slot_meets(state@, state@.current_player as int, 0, SlotRule::Damaged),
            trainer_card@,
        ),
{
    let damaged = any_slot_meets(state, state.current_player, 0, SlotRule::Damaged);
    play_if(damaged, state, trainer_card)
}

fn can_play_erika(state: &State, trainer_card: &TrainerCard) -> (moves: Moves)
    requires
        state@.current_player < 2,
    ensures
        moves_view(moves) == playable_if(
            some_slot_meets(state@, state@.current_player as int, 0, SlotRule::DamagedGrass),
            trainer_card@,
        ),
{
    let damaged_grass = any_slot_meets(state, state.current_player, 0, SlotRule::DamagedGrass);
    play_if(damaged_grass, state, trainer_card)
}

fn can_play_irida(state: &State, trainer_card: &TrainerCard) -> (moves: Moves)
    requires
        state@.current_player < 2,
    ensures
        moves_view(moves) == playable_if(
            some_slot_meets(state@, state@.current_player as int, 0, SlotRule::DamagedWithWater),
            trainer_card@,
        ),
{
    let damaged_water = any_slot_meets(state, state.current_player, 0, SlotRule::DamagedWithWater);
    play_if(damaged_water, state, trainer_card)
}

fn can_play_elemental_switch(state: &State, trainer_card: &TrainerCard) -> (moves: Moves)
    requires
        state@.current_player < 2,
    ensures
        moves_view(moves) == playable_if(
            state@.active(state@.current_player as int).is_some() && some_slot_meets(
                state@,
                state@.current_player as int,
                1,
                SlotRule::HoldsSwitchableEnergy,
            ),
            trainer_card@,
        ),
{
    if state.maybe_get_active(state.current_player).is_none() {
        assert(state@.active(state@.current_player as int).is_none());
        return cannot_play_trainer();
    }
    assert(state@.active(state@.current_player as int).is_some());
    let has_valid_source = any_slot_meets(
        state,
        state.current_player,
        1,
        SlotRule::HoldsSwitchableEnergy,
    );
    play_if(has_valid_source, state, trainer_card)
}

fn can_play_pokemon_center_lady(state: &State, trainer_card: &TrainerCard) -> (moves: Moves)
    requires
        state@.current_player < 2,
    ensures
        moves_view(moves) == playable_if(
            some_slot_meets(state@, state@.current_player as int, 0, SlotRule::DamagedOrAffected),
            trainer_card@,
        ),
{
    let has_valid_target = any_slot_meets(
        state,
        state.current_player,
        0,
        SlotRule::DamagedOrAffected,
    );
    play_if(has_valid_target, state, trainer_card)
}

fn can_play_lillie(state: &State, trainer_card: &TrainerCard) -> (moves: Moves)
    requires
        state@.current_player < 2,
    ensures
        moves_view(moves) == playable_if(
            some_slot_meets(state@, state@.current_player as int, 0, SlotRule::DamagedStage2),
            trainer_card@,
        ),
{
    let damaged_stage2 = any_slot_meets(state, state.current_player, 0, SlotRule::DamagedStage2);
    play_if(damaged_stage2, state, trainer_card)
}

fn can_play_misty(state: &State, trainer_card: &TrainerCard) -> (moves: Moves)
    requires
        state@.current_player < 2,
    ensures
        moves_view(moves) == playable_if(
            state@.count_of_type(state@.current_player as int, 4, EnergyType::Water) > 0,
            trainer_card@,
        ),
{
    let water_in_play_count = state.num_in_play_of_type(state.current_player, EnergyType::Water);
    play_if(water_in_play_count > 0, state, trainer_card)
}

/// Whether the active creature of the player to move is one of the three
/// cards that the rule names.
pub open spec fn koga_allows(state: StateView) -> bool {
    match state.active(state.current_player as int) {
        Some(card) => {
            let id = CardId::of_id(card.card.id());
            id == Some(CardId::A1177Weezing) || id == Some(CardId::A1243Weezing) || id == Some(
                CardId::A1175Muk,
            )
        },
        None => false,
    }
}

fn can_play_koga(state: &State, trainer_card: &TrainerCard) -> (moves: Moves)
    requires
        state@.current_player < 2,
    ensures
        moves_view(moves) == playable_if(koga_allows(state@), trainer_card@),
{
    let active_pokemon = state.maybe_get_active(state.current_player);
    if let Some(played_card) = active_pokemon {
        assert(state@.active(state@.current_player as int) == Some(played_card@));
        let id = played_card.get_id();
        match CardId::from_card_id(id.as_str()) {
            Some(CardId::A1177Weezing) | Some(CardId::A1243Weezing) | Some(CardId::A1175Muk) => {
                return can_play_trainer(state, trainer_card);
            },
            _ => {},
        }
    } else {
        assert(state@.active(state@.current_player as int).is_none());
    }
    cannot_play_trainer()
}

fn can_play_sabrina(state: &State, trainer_card: &TrainerCard) -> (moves: Moves)
    requires
        state@.current_player < 2,
    ensures
        moves_view(moves) == playable_if(
            some_slot_meets(
                state@,
                StateView::opponent(state@.current_player as int),
                1,
                SlotRule::Occupied,
            ),
            trainer_card@,
        ),
{
    let opponent = (state.current_player + 1) % 2;
    let opponent_has_bench = any_slot_meets(state, opponent, 1, SlotRule::Occupied);
    play_if(opponent_has_bench, state, trainer_card)
}

fn can_play_cyrus(state: &State, trainer_card: &TrainerCard) -> (moves: Moves)
    requires
        state@.current_player < 2,
    ensures
        moves_view(moves) == playable_if(
            some_slot_meets(
                state@,
                StateView::opponent(state@.current_player as int),
                1,
                SlotRule::Damaged,
            ),
            trainer_card@,
        ),
{
    let opponent = (state.current_player + 1) % 2;
    let damaged_bench = any_slot_meets(state, opponent, 1, SlotRule::Damaged);
    play_if(damaged_bench, state, trainer_card)
}

/// Whether the opponent's active creature is a basic one and the opponent
/// has a bench to send it back to.
pub open spec fn repel_allows(state: StateView) -> bool {
    let other = StateView::opponent(state.current_player as int);
    match state.active(other) {
        Some(card) => card.card.is_basic() && some_slot_meets(state, other, 1, SlotRule::Occupied),
        None => false,
    }
}

fn can_play_repel(state: &State, trainer_card: &TrainerCard) -> (moves: Moves)
    requires
        state@.current_player < 2,
    ensures
        moves_view(moves) == playable_if(repel_allows(state@), trainer_card@),
{
    let opponent = (state.current_player + 1) % 2;
    let opponent_active = state.maybe_get_active(opponent);
    let opponent_has_bench = any_slot_meets(state, opponent, 1, SlotRule::Occupied);
    if let Some(opponent_active) = opponent_active {
        assert(state@.active(opponent as int) == Some(opponent_active@));
        if opponent_active.card.is_basic() && opponent_has_bench {
            return can_play_trainer(state, trainer_card);
        }
    } else {
        assert(state@.active(opponent as int).is_none());
    }
    cannot_play_trainer()
}

/// Whether some card of a list can evolve the card in a slot directly from
/// its basic form.
pub open spec fn slot_can_skip_stage(state: StateView, player: int, idx: int) -> bool {
    match state.in_play(player, idx) {
        Some(in_play) => exists|k: int|
            0 <= k < state.hands[player].len() && rare_candy_evolves(
                #[trigger] state.hands[player][k],
                in_play,
            ),
        None => false,
    }
}

/// Whether the player to move is past their first turn and holds a stage 2
/// card for one of their basic creatures in play.
pub open spec fn rare_candy_allows(state: StateView) -> bool {
    !state.is_users_first_turn() && exists|i: int|
        0 <= i < 4 && #[trigger] slot_can_skip_stage(state, state.current_player as int, i)
}

/// Whether some card in a hand can evolve a card in play directly from its
/// basic form.
fn hand_can_skip_stage(hand: &Vec<Card>, in_play: &PlayedCard) -> (found: bool)
    ensures
        found == exists|k: int|
            0 <= k < hand@.len() && rare_candy_evolves(#[trigger] hand@[k]@, in_play@),
{
    let mut k: usize = 0;
    while k < hand.len()
        invariant
            k <= hand.len(),
            forall|j: int| 0 <= j < k ==> !rare_candy_evolves(#[trigger] hand@[j]@, in_play@),
        decreases hand.len() - k,
    {
        if can_rare_candy_evolve(&hand[k], in_play) {
            return true;
        }
        k += 1;
    }
    false
}

fn can_play_rare_candy(state: &State, trainer_card: &TrainerCard) -> (moves: Moves)
    requires
        state@.current_player < 2,
    ensures
        moves_view(moves) == playable_if(rare_candy_allows(state@), trainer_card@),
{
    if state.is_users_first_turn() {
        return cannot_play_trainer();
    }
    let player = state.current_player;
    let hand = &state.hands[player];
    let mut i: usize = 0;
    while i < 4
        invariant
            player < 2,
            player == state@.current_player,
            !state@.is_users_first_turn(),
            *hand == state.hands[player as int],
            i <= 4,
            forall|j: int| 0 <= j < i ==> !slot_can_skip_stage(state@, player as int, j),
        decreases 4 - i,
    {
        match &state.in_play_pokemon[player][i] {
            Some(in_play) => {
                assert(state@.in_play(player as int, i as int) == Some(in_play@));
                let found = hand_can_skip_stage(hand, in_play);
                proof {
                    let hand_view = state@.hands[player as int];
                    assert(hand_view.len() == hand@.len());
                    assert(forall|k: int| 0 <= k < hand@.len() ==> hand_view[k] == hand@[k]@);
                    if found {
                        let k = choose|k: int|
                            0 <= k < hand@.len() && rare_candy_evolves(
                                #[trigger] hand@[k]@,
                                in_play@,
                            );
                        assert(rare_candy_evolves(hand_view[k], in_play@));
                    } else {
                        assert forall|k: int| 0 <= k < hand_view.len() implies !rare_candy_evolves(
                            #[trigger] hand_view[k],
                            in_play@,
                        ) by {
                            assert(hand_view[k] == hand@[k]@);
                        }
                    }
                }
                if found {
                    assert(slot_can_skip_stage(state@, player as int, i as int));
                    return can_play_trainer(state, trainer_card);
                }
            },
            None => {
                assert(state@.in_play(player as int, i as int).is_none());
            },
        }
        i += 1;
    }
    cannot_play_trainer()
}

/// Whether a list of cards holds a creature.
pub open spec fn holds_creature(cards: Seq<CardView>) -> bool {
    exists|k: int| 0 <= k < cards.len() && (#[trigger] cards[k]) is Pokemon
}

/// Executable form of [`holds_creature`].
fn has_creature(cards: &Vec<Card>) -> (found: bool)
    ensures
        found == holds_creature(cards_view(cards@)),
{
    let ghost view = cards_view(cards@);
    let mut k: usize = 0;
    while k < cards.len()
        invariant
            k <= cards.len(),
            view == cards_view(cards@),
            forall|j: int| 0 <= j < k ==> !((#[trigger] view[j]) is Pokemon),
        decreases cards.len() - k,
    {
        match &cards[k] {
            Card::Pokemon(_) => {
                assert(view[k as int] is Pokemon);
                return true;
            },
            Card::Trainer(_) => {
                assert(view[k as int] is Trainer);
            },
        }
        k += 1;
    }
    false
}

fn can_play_pokemon_communication(state: &State, trainer_card: &TrainerCard) -> (moves: Moves)
    requires
        state@.current_player < 2,
    ensures
        moves_view(moves) == playable_if(
            holds_creature(state@.hands[state@.current_player as int]) && holds_creature(
                state@.decks[state@.current_player as int].cards,
            ),
            trainer_card@,
        ),
{
    let player = state.current_player;
    let has_pokemon_in_hand = has_creature(&state.hands[player]);
    let has_pokemon_in_deck = has_creature(&state.decks[player].cards);
    play_if(has_pokemon_in_hand && has_pokemon_in_deck, state, trainer_card)
}

/// The number of cards with a given name in a list.
pub open spec fn count_named(cards: Seq<CardView>, name: Seq<char>) -> nat
    decreases cards.len(),
{
    if cards.len() == 0 {
        0
    } else {
        count_named(cards.drop_last(), name) + if cards.last().name() == name {
            1nat
        } else {
            0nat
        }
    }
}

/// The number of cards with a given name in a slot: the card on top and
/// the earlier forms under it.
pub open spec fn count_named_in_slot(slot: Option<PlayedCardView>, name: Seq<char>) -> nat {
    match slot {
        Some(card) => count_named(card.cards_behind, name) + if card.card.name() == name {
            1nat
        } else {
            0nat
        },
        None => 0,
    }
}

/// The number of cards with a given name that a player has in play, in
/// slots below `upto`.
pub open spec fn count_named_in_play(state: StateView, player: int, upto: int, name: Seq<char>) -> nat
    decreases upto,
{
    if upto <= 0 {
        0
    } else {
        count_named_in_play(state, player, upto - 1, name) + count_named_in_slot(
            state.in_play(player, upto - 1),
            name,
        )
    }
}

/// The number of cards with a given name that a player has used so far: in
/// play and in the discard pile.
pub open spec fn count_accounted(state: StateView, player: int, name: Seq<char>) -> nat {
    count_named_in_play(state, player, 4, name) + count_named(state.discard_piles[player], name)
}

/// Whether fewer than two of each of the two cards that the rule names are
/// accounted for, so that one may still be in the deck.
pub open spec fn gladion_allows(state: StateView) -> bool {
    let me = state.current_player as int;
    !(count_accounted(state, me, "Type: Null"@) >= 2 && count_accounted(state, me, "Silvally"@)
        >= 2)
}

/// `n`, or 2 if `n` is larger. The rule only asks whether a count reaches
/// 2, so counts are kept no further.
pub open spec fn up_to_two(n: nat) -> nat {
    if n >= 2 {
        2
    } else {
        n
    }
}

/// Adds the cards with a given name in a list to a count that stops at 2.
fn count_named_onto(cards: &Vec<Card>, name: &str, start: u8, Ghost(before): Ghost<nat>) -> (count: u8)
    requires
        start == up_to_two(before),
    ensures
        count == up_to_two(before + count_named(cards_view(cards@), name@)),
{
    let ghost view = cards_view(cards@);
    let mut count: u8 = start;
    let mut k: usize = 0;
    while k < cards.len()
        invariant
            k <= cards.len(),
            view == cards_view(cards@),
            count == up_to_two(before + count_named(view.take(k as int), name@)),
        decreases cards.len() - k,
    {
        proof {
            assert(view.take(k + 1).drop_last() =~= view.take(k as int));
            assert(view.take(k + 1).last() == cards@[k as int]@);
        }
        let card_name = cards[k].get_name();
        if str_eq(card_name.as_str(), name) && count < 2 {
            count += 1;
        }
        k += 1;
    }
    proof {
        assert(view.take(cards.len() as int) =~= view);
    }
    count
}

/// Counts the cards with a given name that a player has used so far, no
/// further than 2.
fn count_accounted_for(state: &State, player: usize, name: &str) -> (count: u8)
    requires
        player < 2,
    ensures
        count == up_to_two(count_accounted(state@, player as int, name@)),
{
    let mut count: u8 = 0;
    let ghost mut seen: nat = 0;
    let mut i: usize = 0;
    while i < 4
        invariant
            player < 2,
            i <= 4,
            seen == count_named_in_play(state@, player as int, i as int, name@),
            count == up_to_two(seen),
        decreases 4 - i,
    {
        match &state.in_play_pokemon[player][i] {
            Some(pokemon) => {
                assert(state@.in_play(player as int, i as int) == Some(pokemon@));
                let top_name = pokemon.get_name();
                let ghost top: nat = if pokemon@.card.name() == name@ {
                    1
                } else {
                    0
                };
                if str_eq(top_name.as_str(), name) && count < 2 {
                    count += 1;
                }
                count = count_named_onto(&pokemon.cards_behind, name, count, Ghost(seen + top));
                proof {
                    seen = seen + top + count_named(pokemon@.cards_behind, name@);
                }
            },
            None => {
                assert(state@.in_play(player as int, i as int).is_none());
            },
        }
        i += 1;
    }
    count_named_onto(&state.discard_piles[player], name, count, Ghost(seen))
}

fn can_play_gladion(state: &State, trainer_card: &TrainerCard) -> (moves: Moves)
    requires
        state@.current_player < 2,
    ensures
        moves_view(moves) == playable_if(gladion_allows(state@), trainer_card@),
{
    let player = state.current_player;
    let type_null_count = count_accounted_for(state, player, "Type: Null");
    let silvally_count = count_accounted_for(state, player, "Silvally");
    if type_null_count >= 2 && silvally_count >= 2 {
        cannot_play_trainer()
    } else {
        can_play_trainer(state, trainer_card)
    }
}

/// Whether the opponent has scored, the player to move has an ultra beast
/// in play, and the player's discarded energy is not empty.
pub open spec fn lusamine_allows(state: StateView) -> bool {
    let me = state.current_player as int;
    &&& state.points[StateView::opponent(me)] >= 1
    &&& some_slot_meets(state, me, 0, SlotRule::UltraBeast)
    &&& state.discard_energies[me].len() > 0
}

fn can_play_lusamine(state: &State, trainer_card: &TrainerCard) -> (moves: Moves)
    requires
        state@.current_player < 2,
    ensures
        moves_view(moves) == playable_if(lusamine_allows(state@), trainer_card@),
{
    let player = state.current_player;
    let opponent = (player + 1) % 2;
    if state.points[opponent] < 1 {
        return cannot_play_trainer();
    }
    let has_ultra_beast = any_slot_meets(state, player, 0, SlotRule::UltraBeast);
    if !has_ultra_beast {
        return cannot_play_trainer();
    }
    if state.discard_energies[player].is_empty() {
        return cannot_play_trainer();
    }
    can_play_trainer(state, trainer_card)
}

/// Whether the active creature of the player to move is damaged and the
/// player has a bench to swap it with.
pub open spec fn lyra_allows(state: StateView) -> bool {
    let me = state.current_player as int;
    match state.active(me) {
        Some(card) => card.is_damaged() && some_slot_meets(state, me, 1, SlotRule::Occupied),
        None => false,
    }
}

fn can_play_lyra(state: &State, trainer_card: &TrainerCard) -> (moves: Moves)
    requires
        state@.current_player < 2,
    ensures
        moves_view(moves) == playable_if(lyra_allows(state@), trainer_card@),
{
    let player = state.current_player;
    let active_pokemon = state.maybe_get_active(player);
    let has_bench = any_slot_meets(state, player, 1, SlotRule::Occupied);
    if let Some(active) = active_pokemon {
        assert(state@.active(player as int) == Some(active@));
        if active.is_damaged() && has_bench {
            return can_play_trainer(state, trainer_card);
        }
    } else {
        assert(state@.active(player as int).is_none());
    }
    cannot_play_trainer()
}

fn can_play_eevee_bag(state: &State, trainer_card: &TrainerCard) -> (moves: Moves)
    requires
        state@.current_player < 2,
    ensures
        moves_view(moves) == playable_if(
            some_slot_meets(state@, state@.current_player as int, 0, SlotRule::EeveeEvolution),
            trainer_card@,
        ),
{
    let has_eevee_evolution = any_slot_meets(
        state,
        state.current_player,
        0,
        SlotRule::EeveeEvolution,
    );
    play_if(has_eevee_evolution, state, trainer_card)
}

} // verus!
