//! Playing a trainer card.
//!
//! The engine carries out the effect of some trainer cards. A card is first
//! discarded from the hand, and then its effect takes place. An effect that
//! needs a choice makes the choice pending.

use vstd::prelude::*;

use crate::actions::abilities::heal_where;
use crate::actions::abilities::healed_where_upto;
use crate::actions::knockout::promotion_moves;
use crate::actions::knockout::promotions;
use crate::actions::turn::draw_card;
use crate::actions::turn::drawn;
use crate::actions::types::simple_actions_view;
use crate::actions::types::SimpleAction;
use crate::actions::types::SimpleActionView;
use crate::card_ids::CardId;
use crate::models::card::find_by_id;
use crate::models::card::first_with_id;
use crate::models::card::Card;
use crate::models::card::CardView;
use crate::models::card::TrainerCard;
use crate::models::card::TrainerCardView;
use crate::models::card::TrainerType;
use crate::slot_rules::slot_meets;
use crate::move_generation::move_generation_trainer::slot_takes_tool;
use crate::slot_rules::SlotRule;
use crate::state::State;
use crate::state::StateView;
use crate::tool_ids::ToolId;

verus! {

/// What playing a trainer card does.
#[derive(Clone, Copy, Debug, PartialEq, Eq, Hash, Structural)]
pub enum PlayEffect {
    /// Heals one card that meets a condition, chosen by the player.
    HealOne { amount: u32, rule: SlotRule, cure_status: bool },
    /// Heals every card of the player that meets a condition.
    HealAll { amount: u32, rule: SlotRule },
    /// The opponent must swap their active creature with a benched one of
    /// their choice.
    OpponentSwitches,
    /// The player swaps their active creature with a benched one of their
    /// choice.
    Switch,
    /// The player draws cards.
    Draw(u8),
    /// The player attaches the tool to a card of their choice.
    Tool(ToolId),
}

/// The effect of a trainer card that is not a tool, by its identity.
pub open spec fn effect_of_identity(id: CardId) -> Option<PlayEffect> {
    match id {
        CardId::PA001Potion => Some(
            PlayEffect::HealOne { amount: 20, rule: SlotRule::Damaged, cure_status: false },
        ),
        CardId::A1219Erika | CardId::A1266Erika | CardId::A4b328Erika | CardId::A4b329Erika => Some(
            PlayEffect::HealOne { amount: 50, rule: SlotRule::DamagedGrass, cure_status: false },
        ),
        CardId::A2a072Irida | CardId::A2a087Irida | CardId::A4b330Irida | CardId::A4b331Irida => {
            Some(PlayEffect::HealAll { amount: 40, rule: SlotRule::DamagedWithWater })
        },
        CardId::A3155Lillie
        | CardId::A3197Lillie
        | CardId::A3209Lillie
        | CardId::A4b348Lillie
        | CardId::A4b349Lillie
        | CardId::A4b374Lillie => Some(
            PlayEffect::HealOne { amount: 60, rule: SlotRule::DamagedStage2, cure_status: false },
        ),
        CardId::A2b070PokemonCenterLady | CardId::A2b089PokemonCenterLady => Some(
            PlayEffect::HealOne { amount: 30, rule: SlotRule::DamagedOrAffected, cure_status: true },
        ),
        CardId::A1225Sabrina
        | CardId::A1272Sabrina
        | CardId::A4b338Sabrina
        | CardId::A4b339Sabrina
        | CardId::A3a064Repel => Some(PlayEffect::OpponentSwitches),
        CardId::A4157Lyra | CardId::A4197Lyra | CardId::A4b332Lyra | CardId::A4b333Lyra => Some(
            PlayEffect::Switch,
        ),
        CardId::PA007ProfessorsResearch | CardId::A4b373ProfessorsResearch => Some(
            PlayEffect::Draw(2),
        ),
        _ => None,
    }
}

/// The effect of a trainer card that the engine carries out, if it carries
/// out any. A tool goes by the tool list, every other card by its identity.
pub open spec fn play_effect_of(card: TrainerCardView) -> Option<PlayEffect> {
    if card.trainer_card_type == TrainerType::Tool {
        match ToolId::of_id(card.id) {
            Some(tool) => Some(PlayEffect::Tool(tool)),
            None => None,
        }
    } else {
        match CardId::of_id(card.id) {
            Some(id) => effect_of_identity(id),
            None => None,
        }
    }
}

/// Executable form of [`play_effect_of`].
pub fn find_play_effect(card: &TrainerCard) -> (effect: Option<PlayEffect>)
    ensures
        effect == play_effect_of(card@),
{
    if card.trainer_card_type == TrainerType::Tool {
        return match ToolId::from_trainer_card(card) {
            Some(tool) => Some(PlayEffect::Tool(tool)),
            None => None,
        };
    }
    let id = match CardId::from_card_id(card.id.as_str()) {
        Some(id) => id,
        None => {
            return None;
        },
    };
    match id {
        CardId::PA001Potion => Some(
            PlayEffect::HealOne { amount: 20, rule: SlotRule::Damaged, cure_status: false },
        ),
        CardId::A1219Erika | CardId::A1266Erika | CardId::A4b328Erika | CardId::A4b329Erika => Some(
            PlayEffect::HealOne { amount: 50, rule: SlotRule::DamagedGrass, cure_status: false },
        ),
        CardId::A2a072Irida | CardId::A2a087Irida | CardId::A4b330Irida | CardId::A4b331Irida => {
            Some(PlayEffect::HealAll { amount: 40, rule: SlotRule::DamagedWithWater })
        },
        CardId::A3155Lillie
        | CardId::A3197Lillie
        | CardId::A3209Lillie
        | CardId::A4b348Lillie
        | CardId::A4b349Lillie
        | CardId::A4b374Lillie => Some(
            PlayEffect::HealOne { amount: 60, rule: SlotRule::DamagedStage2, cure_status: false },
        ),
        CardId::A2b070PokemonCenterLady | CardId::A2b089PokemonCenterLady => Some(
            PlayEffect::HealOne { amount: 30, rule: SlotRule::DamagedOrAffected, cure_status: true },
        ),
        CardId::A1225Sabrina
        | CardId::A1272Sabrina
        | CardId::A4b338Sabrina
        | CardId::A4b339Sabrina
        | CardId::A3a064Repel => Some(PlayEffect::OpponentSwitches),
        CardId::A4157Lyra | CardId::A4197Lyra | CardId::A4b332Lyra | CardId::A4b333Lyra => Some(
            PlayEffect::Switch,
        ),
        CardId::PA007ProfessorsResearch | CardId::A4b373ProfessorsResearch => Some(
            PlayEffect::Draw(2),
        ),
        _ => None,
    }
}

/// The moves that heal a card of a player in a slot below `n` that meets a
/// condition, in slot order.
pub open spec fn heal_moves_upto(
    state: StateView,
    player: int,
    rule: SlotRule,
    amount: u32,
    cure_status: bool,
    n: int,
) -> Seq<SimpleActionView>
    decreases n,
{
    if n <= 0 {
        Seq::empty()
    } else {
        let rest = heal_moves_upto(state, player, rule, amount, cure_status, n - 1);
        if slot_meets(state, player, n - 1, rule) {
            rest.push(SimpleActionView::Heal { in_play_idx: (n - 1) as usize, amount, cure_status })
        } else {
            rest
        }
    }
}

/// The moves that attach a tool to a card of a player in a slot below `n`
/// that can take it, in slot order.
pub open spec fn tool_moves_upto(state: StateView, player: int, tool: ToolId, n: int) -> Seq<
    SimpleActionView,
>
    decreases n,
{
    if n <= 0 {
        Seq::empty()
    } else {
        let rest = tool_moves_upto(state, player, tool, n - 1);
        if slot_takes_tool(state, player, n - 1, tool) {
            rest.push(SimpleActionView::AttachTool { in_play_idx: (n - 1) as usize, tool_id: tool })
        } else {
            rest
        }
    }
}

/// The state with a choice pending for a player, unless there is nothing
/// to choose from.
pub open spec fn choice_pending(state: StateView, player: int, moves: Seq<SimpleActionView>) -> StateView {
    if moves.len() > 0 {
        state.push_pending((player as usize, moves))
    } else {
        state
    }
}

/// The state after `n` cards have been drawn by a player, one at a time.
pub open spec fn drawn_times(state: StateView, player: int, n: int) -> StateView
    decreases n,
{
    if n <= 0 {
        state
    } else {
        drawn(drawn_times(state, player, n - 1), player)
    }
}

/// The state after the effect of a trainer card.
pub open spec fn play_effect_applied(state: StateView, player: int, effect: Option<PlayEffect>) -> StateView {
    let other = StateView::opponent(player);
    match effect {
        Some(PlayEffect::HealOne { amount, rule, cure_status }) => choice_pending(
            state,
            player,
            heal_moves_upto(state, player, rule, amount, cure_status, 4),
        ),
        Some(PlayEffect::HealAll { amount, rule }) => healed_where_upto(
            state,
            player,
            rule,
            amount,
            4,
        ),
        Some(PlayEffect::OpponentSwitches) => choice_pending(state, other, promotions(state, other)),
        Some(PlayEffect::Switch) => choice_pending(state, player, promotions(state, player)),
        Some(PlayEffect::Draw(n)) => drawn_times(state, player, n as int),
        Some(PlayEffect::Tool(tool)) => choice_pending(
            state,
            player,
            tool_moves_upto(state, player, tool, 4),
        ),
        None => state,
    }
}

/// The state after a player has played the first card of their hand with
/// a given identity, which must be a trainer card: the card lies on the
/// discard pile, a supporter is marked as played this turn, and the card's
/// effect has taken place.
pub open spec fn trainer_played(state: StateView, player: int, id: Seq<char>) -> StateView {
    let hand = state.hands[player];
    match first_with_id(hand, id) {
        Some(k) => match hand[k] {
            CardView::Trainer(card) => {
                let s1 = state.set_hand(player, hand.remove(k));
                let s2 = s1.set_discard_pile(player, s1.discard_piles[player].push(hand[k]));
                let s3 = if card.trainer_card_type == TrainerType::Supporter {
                    StateView { has_played_support: true, ..s2 }
                } else {
                    s2
                };
                play_effect_applied(s3, player, play_effect_of(card))
            },
            CardView::Pokemon(_) => state,
        },
        None => state,
    }
}

/// The moves that heal a card of a player that meets a condition.
pub fn heal_moves(state: &State, player: usize, rule: SlotRule, amount: u32, cure_status: bool) -> (moves:
    Vec<SimpleAction>)
    requires
        player < 2,
    ensures
        simple_actions_view(moves@) == heal_moves_upto(
            state@,
            player as int,
            rule,
            amount,
            cure_status,
            4,
        ),
{
    let mut moves: Vec<SimpleAction> = Vec::new();
    assert(simple_actions_view(moves@) =~= Seq::empty());
    let mut i: usize = 0;
    while i < 4
        invariant
            player < 2,
            i <= 4,
            simple_actions_view(moves@) == heal_moves_upto(
                state@,
                player as int,
                rule,
                amount,
                cure_status,
                i as int,
            ),
        decreases 4 - i,
    {
        let meets = match &state.in_play_pokemon[player][i] {
            Some(card) => {
                assert(state@.in_play(player as int, i as int) == Some(card@));
                rule.check(card)
            },
            None => {
                assert(state@.in_play(player as int, i as int).is_none());
                false
            },
        };
        if meets {
            let ghost before = moves@;
            moves.push(SimpleAction::Heal { in_play_idx: i, amount, cure_status });
            assert(simple_actions_view(moves@) =~= simple_actions_view(before).push(
                SimpleActionView::Heal { in_play_idx: i, amount, cure_status },
            ));
        }
        i += 1;
    }
    moves
}

/// The moves that attach a tool to a card of a player that can take it.
pub fn tool_moves(state: &State, player: usize, tool: ToolId) -> (moves: Vec<SimpleAction>)
    requires
        player < 2,
    ensures
        simple_actions_view(moves@) == tool_moves_upto(state@, player as int, tool, 4),
{
    let mut moves: Vec<SimpleAction> = Vec::new();
    assert(simple_actions_view(moves@) =~= Seq::empty());
    let mut i: usize = 0;
    while i < 4
        invariant
            player < 2,
            i <= 4,
            simple_actions_view(moves@) == tool_moves_upto(state@, player as int, tool, i as int),
        decreases 4 - i,
    {
        let takes = match &state.in_play_pokemon[player][i] {
            Some(card) => {
                assert(state@.in_play(player as int, i as int) == Some(card@));
                !card.has_tool_attached() && tool.can_attach_to(card)
            },
            None => {
                assert(state@.in_play(player as int, i as int).is_none());
                false
            },
        };
        if takes {
            let ghost before = moves@;
            moves.push(SimpleAction::AttachTool { in_play_idx: i, tool_id: tool });
            assert(simple_actions_view(moves@) =~= simple_actions_view(before).push(
                SimpleActionView::AttachTool { in_play_idx: i, tool_id: tool },
            ));
        }
        i += 1;
    }
    moves
}

/// Makes a choice pending for a player, unless there is nothing to choose
/// from.
pub fn request(state: &mut State, player: usize, moves: Vec<SimpleAction>)
    requires
        player < 2,
        old(state)@.wf(),
    ensures
        final(state)@ == choice_pending(old(state)@, player as int, simple_actions_view(moves@)),
        final(state)@.wf(),
{
    if moves.len() > 0 {
        state.push_pending(player, moves);
    }
}

/// Draws `n` cards for a player, one at a time.
pub fn draw_cards(state: &mut State, player: usize, n: u8)
    requires
        player < 2,
        old(state)@.wf(),
    ensures
        final(state)@ == drawn_times(old(state)@, player as int, n as int),
        final(state)@.wf(),
{
    let mut k: u8 = 0;
    while k < n
        invariant
            player < 2,
            k <= n,
            state@.wf(),
            state@ == drawn_times(old(state)@, player as int, k as int),
        decreases n - k,
    {
        draw_card(state, player);
        k += 1;
    }
}

/// Carries out the effect of a trainer card.
pub fn apply_play_effect(state: &mut State, player: usize, effect: Option<PlayEffect>)
    requires
        player < 2,
        old(state)@.wf(),
    ensures
        final(state)@ == play_effect_applied(old(state)@, player as int, effect),
        final(state)@.wf(),
{
    let other = (player + 1) % 2;
    match effect {
        Some(PlayEffect::HealOne { amount, rule, cure_status }) => {
            let moves = heal_moves(state, player, rule, amount, cure_status);
            request(state, player, moves);
        },
        Some(PlayEffect::HealAll { amount, rule }) => {
            heal_where(state, player, rule, amount);
        },
        Some(PlayEffect::OpponentSwitches) => {
            let moves = promotion_moves(state, other);
            request(state, other, moves);
        },
        Some(PlayEffect::Switch) => {
            let moves = promotion_moves(state, player);
            request(state, player, moves);
        },
        Some(PlayEffect::Draw(n)) => {
            draw_cards(state, player, n);
        },
        Some(PlayEffect::Tool(tool)) => {
            let moves = tool_moves(state, player, tool);
            request(state, player, moves);
        },
        None => {},
    }
}

/// Plays a trainer card from a player's hand.
pub fn play_trainer(state: &mut State, player: usize, id: &str)
    requires
        player < 2,
        old(state)@.wf(),
    ensures
        final(state)@ == trainer_played(old(state)@, player as int, id@),
        final(state)@.wf(),
{
    let found = find_by_id(&state.hands[player], id);
    let k = match found {
        Some(k) => k,
        None => {
            return ;
        },
    };
    assert(state@.hands[player as int][k as int] == state.hands[player as int]@[k as int]@);
    let (is_supporter, effect) = match &state.hands[player][k] {
        Card::Trainer(card) => (
            card.trainer_card_type == TrainerType::Supporter,
            find_play_effect(card),
        ),
        Card::Pokemon(_) => {
            return ;
        },
    };
    let card = state.remove_from_hand(player, k);
    state.discard_card(player, card);
    if is_supporter {
        state.has_played_support = true;
    }
    apply_play_effect(state, player, effect);
}

} // verus!
