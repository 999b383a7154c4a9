//! The moves that change one player's side of the board: placing a card,
//! attaching energy or a tool, healing, promoting and retreating.
//!
//! A move that does not fit the state leaves the state as it is.

use vstd::prelude::*;

use crate::actions::attack::entering;
use crate::effects::CardEffect;
use crate::hooks::to_playable_card;
use crate::models::card::find_by_id;
use crate::models::card::Card;
use crate::models::card::CardView;
use crate::models::card::first_with_id;
use crate::models::card::EnergyType;
use crate::models::played_card::healed;
use crate::move_generation::attacks::holds_effect;
use crate::models::played_card::PlayedCard;
use crate::models::played_card::PlayedCardView;
use crate::state::State;
use crate::state::StateView;
use crate::tool_ids::ToolId;

verus! {

/// The state after a player has placed the first card of their hand with a
/// given identity into a slot. The card must be a basic creature and the
/// slot must be free.
pub open spec fn placed(state: StateView, player: int, id: Seq<char>, idx: usize) -> StateView {
    let hand = state.hands[player];
    match first_with_id(hand, id) {
        Some(k) => if idx < 4 && hand[k].is_basic() && state.in_play(player, idx as int).is_none() {
            state.set_hand(player, hand.remove(k)).set_slot(
                player,
                idx as int,
                Some(entering(hand[k], true)),
            )
        } else {
            state
        },
        None => state,
    }
}

/// Places a card from a player's hand into a slot.
pub fn place(state: &mut State, player: usize, id: &str, idx: usize)
    requires
        player < 2,
        old(state)@.wf(),
    ensures
        final(state)@ == placed(old(state)@, player as int, id@, idx),
        final(state)@.wf(),
{
    let found = find_by_id(&state.hands[player], id);
    match found {
        Some(k) => {
            assert(state@.hands[player as int][k as int] == state.hands[player as int]@[k as int]@);
            if idx < 4 && state.hands[player][k].is_basic() {
                let free = state.in_play_pokemon[player][idx].is_none();
                assert(free == state@.in_play(player as int, idx as int).is_none());
                if free {
                    let card = state.remove_from_hand(player, k);
                    let played = to_playable_card(&card, true);
                    assert(played@ == entering(card@, true));
                    state.put_slot(player, idx, Some(played));
                }
            }
        },
        None => {},
    }
}

/// The state after energy has been attached to the card in a slot. Turn
/// energy is used up by it.
pub open spec fn energy_attached(
    state: StateView,
    player: int,
    idx: usize,
    energy: EnergyType,
    count: u8,
    is_turn_energy: bool,
) -> StateView {
    if idx < 4 {
        match state.in_play(player, idx as int) {
            Some(card) => {
                let s1 = state.set_slot(
                    player,
                    idx as int,
                    Some(
                        PlayedCardView {
                            attached_energy: card.attached_energy + Seq::new(
                                count as nat,
                                |i: int| energy,
                            ),
                            ..card
                        },
                    ),
                );
                if is_turn_energy {
                    StateView { current_energy: None, ..s1 }
                } else {
                    s1
                }
            },
            None => state,
        }
    } else {
        state
    }
}

/// Attaches energy to the card in a slot.
pub fn attach_energy(
    state: &mut State,
    player: usize,
    idx: usize,
    energy: EnergyType,
    count: u8,
    is_turn_energy: bool,
)
    requires
        player < 2,
        old(state)@.wf(),
    ensures
        final(state)@ == energy_attached(
            old(state)@,
            player as int,
            idx,
            energy,
            count,
            is_turn_energy,
        ),
        final(state)@.wf(),
{
    if idx >= 4 {
        return ;
    }
    let mut attached = false;
    match &mut state.in_play_pokemon[player][idx] {
        Some(card) => {
            card.attach_energy(&energy, count);
            attached = true;
        },
        None => {},
    }
    if attached && is_turn_energy {
        state.current_energy = None;
    }
    proof {
        let want = energy_attached(old(state)@, player as int, idx, energy, count, is_turn_energy);
        if old(state)@.in_play(player as int, idx as int).is_some() {
            let card = old(state)@.in_play(player as int, idx as int).unwrap();
            let grown = PlayedCardView {
                attached_energy: card.attached_energy + Seq::new(count as nat, |i: int| energy),
                ..card
            };
            assert(state@.in_play_pokemon[player as int][idx as int] == Some(grown));
        }
        assert(state@.in_play_pokemon[player as int] =~= want.in_play_pokemon[player as int]);
        assert(state@.in_play_pokemon =~= want.in_play_pokemon);
    }
}

/// The health that a tool adds to its bearer.
pub open spec fn tool_health(tool: ToolId) -> u32 {
    match tool {
        ToolId::A2147GiantCape => 20,
        ToolId::A3147LeafCape => 30,
        _ => 0,
    }
}

/// Health raised by a bonus, as far as the number type goes.
pub open spec fn raised(health: u32, bonus: u32) -> u32 {
    if health + bonus > u32::MAX {
        u32::MAX
    } else {
        (health + bonus) as u32
    }
}

/// A card with a tool attached: the tool's health is added to both the
/// maximum and what is left.
pub open spec fn equipped(card: PlayedCardView, tool: ToolId) -> PlayedCardView {
    PlayedCardView {
        attached_tool: Some(tool),
        total_hp: raised(card.total_hp, tool_health(tool)),
        remaining_hp: raised(card.remaining_hp, tool_health(tool)),
        ..card
    }
}

/// The state after a tool has been attached to the card in a slot. The
/// card must have no tool yet and be one that the tool fits.
pub open spec fn tool_attached(state: StateView, player: int, idx: usize, tool: ToolId) -> StateView {
    if idx < 4 {
        match state.in_play(player, idx as int) {
            Some(card) => if tool.is_choice(card) {
                state.set_slot(player, idx as int, Some(equipped(card, tool)))
            } else {
                state
            },
            None => state,
        }
    } else {
        state
    }
}

/// Executable form of [`raised`].
fn raise(health: u32, bonus: u32) -> (r: u32)
    ensures
        r == raised(health, bonus),
{
    if health > u32::MAX - bonus {
        u32::MAX
    } else {
        health + bonus
    }
}

/// Attaches a tool to the card in a slot.
pub fn attach_tool(state: &mut State, player: usize, idx: usize, tool: ToolId)
    requires
        player < 2,
        old(state)@.wf(),
    ensures
        final(state)@ == tool_attached(old(state)@, player as int, idx, tool),
        final(state)@.wf(),
{
    if idx >= 4 {
        return ;
    }
    match &mut state.in_play_pokemon[player][idx] {
        Some(card) => {
            if !card.has_tool_attached() && tool.can_attach_to(card) {
                let bonus: u32 = match tool {
                    ToolId::A2147GiantCape => 20,
                    ToolId::A3147LeafCape => 30,
                    _ => 0,
                };
                card.attached_tool = Some(tool);
                card.total_hp = raise(card.total_hp, bonus);
                card.remaining_hp = raise(card.remaining_hp, bonus);
            }
        },
        None => {},
    }
    proof {
        let want = tool_attached(old(state)@, player as int, idx, tool);
        assert(state@.in_play_pokemon[player as int] =~= want.in_play_pokemon[player as int]);
        assert(state@.in_play_pokemon =~= want.in_play_pokemon);
    }
}

/// A card after healing, with its status conditions cured if asked.
pub open spec fn treated(card: PlayedCardView, amount: u32, cure_status: bool) -> PlayedCardView {
    let better = PlayedCardView {
        remaining_hp: healed(card.remaining_hp, card.total_hp, amount),
        ..card
    };
    if cure_status {
        PlayedCardView { poisoned: false, paralyzed: false, asleep: false, ..better }
    } else {
        better
    }
}

/// The state after the card in a slot has been healed.
pub open spec fn slot_healed(
    state: StateView,
    player: int,
    idx: usize,
    amount: u32,
    cure_status: bool,
) -> StateView {
    if idx < 4 {
        match state.in_play(player, idx as int) {
            Some(card) => state.set_slot(player, idx as int, Some(treated(card, amount, cure_status))),
            None => state,
        }
    } else {
        state
    }
}

/// Heals the card in a slot.
pub fn heal_slot(state: &mut State, player: usize, idx: usize, amount: u32, cure_status: bool)
    requires
        player < 2,
        old(state)@.wf(),
    ensures
        final(state)@ == slot_healed(old(state)@, player as int, idx, amount, cure_status),
        final(state)@.wf(),
{
    if idx >= 4 {
        return ;
    }
    match &mut state.in_play_pokemon[player][idx] {
        Some(card) => {
            card.heal(amount);
            if cure_status {
                card.cure_status_conditions();
            }
        },
        None => {},
    }
    proof {
        let want = slot_healed(old(state)@, player as int, idx, amount, cure_status);
        assert(state@.in_play_pokemon[player as int] =~= want.in_play_pokemon[player as int]);
        assert(state@.in_play_pokemon =~= want.in_play_pokemon);
    }
}

/// A card as it is on the bench after leaving the active slot: without
/// status conditions and without timed effects.
pub open spec fn benched(card: PlayedCardView) -> PlayedCardView {
    PlayedCardView {
        poisoned: false,
        paralyzed: false,
        asleep: false,
        effects: Seq::empty(),
        ..card
    }
}

/// What the active slot leaves behind on the bench.
pub open spec fn benched_slot(slot: Option<PlayedCardView>) -> Option<PlayedCardView> {
    match slot {
        Some(card) => Some(benched(card)),
        None => None,
    }
}

/// The state after the card in a bench slot has moved to the active slot.
/// An active creature that was there takes its place on the bench.
pub open spec fn activated(state: StateView, player: int, idx: usize) -> StateView {
    if 1 <= idx < 4 {
        match state.in_play(player, idx as int) {
            Some(card) => state.set_slot(player, idx as int, benched_slot(state.active(player))).set_slot(
                player,
                0,
                Some(card),
            ),
            None => state,
        }
    } else {
        state
    }
}

/// Moves the card in a bench slot to the active slot.
pub fn activate(state: &mut State, player: usize, idx: usize)
    requires
        player < 2,
        old(state)@.wf(),
    ensures
        final(state)@ == activated(old(state)@, player as int, idx),
        final(state)@.wf(),
{
    if idx < 1 || idx >= 4 {
        return ;
    }
    let occupied = state.in_play_pokemon[player][idx].is_some();
    assert(occupied == state@.in_play(player as int, idx as int).is_some());
    if !occupied {
        return ;
    }
    let ghost before = state@;
    let incoming = state.take_slot(player, idx);
    let outgoing = state.take_slot(player, 0);
    let outgoing = match outgoing {
        Some(card) => {
            let mut card = card;
            card.clear_status_and_effects();
            Some(card)
        },
        None => None,
    };
    state.put_slot(player, idx, outgoing);
    state.put_slot(player, 0, incoming);
    proof {
        let want = activated(before, player as int, idx);
        assert(state@.in_play_pokemon[player as int] =~= want.in_play_pokemon[player as int]);
        assert(state@.in_play_pokemon =~= want.in_play_pokemon);
    }
}

/// The number of energies that a card must discard to retreat: the length
/// of its retreat cost, one less for the bearer of the boat.
pub open spec fn retreat_price(card: PlayedCardView) -> nat {
    let full = match card.card {
        CardView::Pokemon(creature) => creature.retreat_cost.len(),
        CardView::Trainer(_) => 0,
    };
    if card.attached_tool == Some(ToolId::A4a067InflatableBoat) && full > 0 {
        (full - 1) as nat
    } else {
        full
    }
}

/// Whether a player's active creature may retreat: there is one, the
/// player has not retreated this turn, no effect holds the creature in
/// place, and it has the energy to pay the price.
pub open spec fn may_retreat(state: StateView, player: int) -> bool {
    match state.active(player) {
        Some(card) => !state.has_retreated && !card.active_effects().contains(
            CardEffect::NoRetreat,
        ) && retreat_price(card) <= card.attached_energy.len(),
        None => false,
    }
}

/// The state after a player's active creature has retreated to a bench
/// slot whose card takes over: the creature pays the price with the
/// energies attached last, which are discarded, and the player cannot
/// retreat again this turn.
pub open spec fn retreated(state: StateView, player: int, idx: usize) -> StateView {
    if 1 <= idx < 4 && may_retreat(state, player) && state.in_play(player, idx as int).is_some() {
        let card = state.active(player).unwrap();
        let kept = card.attached_energy.len() - retreat_price(card);
        let paid = PlayedCardView { attached_energy: card.attached_energy.take(kept), ..card };
        let s1 = state.set_slot(player, 0, Some(paid));
        let s2 = s1.set_discard_energies(
            player,
            s1.discard_energies[player] + card.attached_energy.skip(kept),
        );
        StateView { has_retreated: true, ..activated(s2, player, idx) }
    } else {
        state
    }
}

/// Executable form of [`retreat_price`].
fn price_of_retreat(card: &PlayedCard) -> (price: usize)
    ensures
        price == retreat_price(card@),
{
    let full = match &card.card {
        Card::Pokemon(creature) => creature.retreat_cost.len(),
        Card::Trainer(_) => 0,
    };
    if card.attached_tool == Some(ToolId::A4a067InflatableBoat) && full > 0 {
        full - 1
    } else {
        full
    }
}

/// Whether a list of effects holds the one that forbids retreat.
fn held_in_place(card: &PlayedCard) -> (held: bool)
    ensures
        held == card@.active_effects().contains(CardEffect::NoRetreat),
{
    let effects = card.get_active_effects();
    holds_effect(&effects, CardEffect::NoRetreat)
}

/// Executable form of [`may_retreat`].
pub fn can_retreat(state: &State, player: usize) -> (ok: bool)
    requires
        player < 2,
    ensures
        ok == may_retreat(state@, player as int),
{
    match &state.in_play_pokemon[player][0] {
        Some(card) => {
            assert(state@.active(player as int) == Some(card@));
            !state.has_retreated && !held_in_place(card) && price_of_retreat(card)
                <= card.attached_energy.len()
        },
        None => {
            assert(state@.active(player as int).is_none());
            false
        },
    }
}

/// Takes the price of a retreat from a player's active creature.
fn pay_for_retreat(state: &mut State, player: usize)
    requires
        player < 2,
        old(state)@.wf(),
        may_retreat(old(state)@, player as int),
    ensures
        final(state)@.wf(),
        ({
            let card = old(state)@.active(player as int).unwrap();
            let kept = card.attached_energy.len() - retreat_price(card);
            let paid = PlayedCardView { attached_energy: card.attached_energy.take(kept), ..card };
            let s1 = old(state)@.set_slot(player as int, 0, Some(paid));
            final(state)@ == s1.set_discard_energies(
                player as int,
                s1.discard_energies[player as int] + card.attached_energy.skip(kept),
            )
        }),
{
    let ghost before = state@;
    let ghost card = before.active(player as int).unwrap();
    let ghost kept = card.attached_energy.len() - retreat_price(card);
    let mut given: Vec<EnergyType> = Vec::new();
    match &mut state.in_play_pokemon[player][0] {
        Some(active) => {
            let price = price_of_retreat(active);
            let keep = active.attached_energy.len() - price;
            given = active.attached_energy.split_off(keep);
        },
        None => {},
    }
    proof {
        let paid = PlayedCardView { attached_energy: card.attached_energy.take(kept), ..card };
        let want = before.set_slot(player as int, 0, Some(paid));
        assert(card.attached_energy.take(kept) =~= card.attached_energy.subrange(0, kept));
        assert(state@.in_play_pokemon[player as int] =~= want.in_play_pokemon[player as int]);
        assert(state@.in_play_pokemon =~= want.in_play_pokemon);
        assert(state@ == want);
        assert(given@ =~= card.attached_energy.skip(kept));
    }
    state.discard_energy(player, given);
}

/// Retreats a player's active creature to a bench slot.
pub fn retreat(state: &mut State, player: usize, idx: usize)
    requires
        player < 2,
        old(state)@.wf(),
    ensures
        final(state)@ == retreated(old(state)@, player as int, idx),
        final(state)@.wf(),
{
    if idx < 1 || idx >= 4 || !can_retreat(state, player) {
        return ;
    }
    let occupied = state.in_play_pokemon[player][idx].is_some();
    assert(occupied == state@.in_play(player as int, idx as int).is_some());
    if !occupied {
        return ;
    }
    pay_for_retreat(state, player);
    activate(state, player, idx);
    state.has_retreated = true;
}

} // verus!
