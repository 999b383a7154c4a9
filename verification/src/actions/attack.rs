//! The resolution of an attack.
//!
//! An attack is resolved in a fixed order. First everything that the attack
//! declares is carried out in full: damage, status conditions, changes to
//! the bench, and the damage that the attacker takes back from the
//! defender's tool. Only then are knockouts evaluated, for every creature
//! on the board. Last, what remains to be decided is made pending: a choice
//! that the attack leaves to its player, the promotion of a new active
//! creature where one was knocked out, and the end of the turn.

use vstd::prelude::*;

use crate::actions::knockout::check_knockouts;
use crate::actions::knockout::judge;
use crate::actions::knockout::judged;
use crate::actions::knockout::knock_out_all;
use crate::actions::knockout::lemma_knock_out_keeps_the_rest;
use crate::actions::knockout::promotion_requested;
use crate::actions::knockout::promotions_requested;
use crate::actions::knockout::request_promotions;
use crate::actions::types::simple_actions_view;
use crate::actions::types::SimpleAction;
use crate::actions::types::SimpleActionView;
use crate::attack_ids::AttackId;
use crate::effects::CardEffect;
use crate::hooks::to_playable_card;
use crate::models::card::find_creature_named;
use crate::models::card::first_creature_named;
use crate::models::card::Card;
use crate::models::card::CardView;
use crate::models::card::EnergyType;
use crate::models::played_card::damaged;
use crate::models::played_card::energy_discarded;
use crate::models::played_card::healed;
use crate::models::played_card::PlayedCard;
use crate::models::played_card::PlayedCardView;
use crate::state::State;
use crate::state::StateView;
use crate::tool_ids::ToolId;

verus! {

/// The extra damage of an attack against a creature that is weak to the
/// attacker's element.
pub const WEAKNESS_DAMAGE: u32 = 20;

/// The damage that a creature takes back when it damages the bearer of the
/// helmet.
pub const HELMET_DAMAGE: u32 = 20;

/// The health that the draining attack gives back to the attacker.
pub const DRAIN_HEAL: u32 = 30;

/// What an attack does, as far as the engine reads it from the card: its
/// damage before weakness, and its implemented effect if it has one.
pub struct AttackInHand {
    pub fixed_damage: u32,
    pub effect: Option<AttackId>,
}

/// The attack at position `i` of a player's active creature, if there is
/// such a creature and such an attack.
pub open spec fn attack_in_hand(state: StateView, player: int, i: usize) -> Option<AttackInHand> {
    match state.active(player) {
        Some(attacker) => match attacker.card {
            CardView::Pokemon(creature) => if i < creature.attacks.len() {
                Some(
                    AttackInHand {
                        fixed_damage: creature.attacks[i as int].fixed_damage,
                        effect: AttackId::of_index(creature.id, i as int),
                    },
                )
            } else {
                None
            },
            CardView::Trainer(_) => None,
        },
        None => None,
    }
}

/// Whether the defender's weakness is the attacker's element.
pub open spec fn is_weak_to(defender: PlayedCardView, attacker: PlayedCardView) -> bool {
    match (defender.card, attacker.card) {
        (CardView::Pokemon(d), CardView::Pokemon(a)) => d.weakness == Some(a.energy_type),
        _ => false,
    }
}

/// The damage that the defender takes: the attack's fixed damage, and more
/// if the attack does damage at all and the defender is weak to the
/// attacker.
pub open spec fn attack_damage(
    attacker: PlayedCardView,
    fixed_damage: u32,
    defender: PlayedCardView,
) -> u32 {
    if fixed_damage > 0 && is_weak_to(defender, attacker) {
        if fixed_damage + WEAKNESS_DAMAGE > u32::MAX {
            u32::MAX
        } else {
            (fixed_damage + WEAKNESS_DAMAGE) as u32
        }
    } else {
        fixed_damage
    }
}

/// The damage that the attacker takes back: the helmet's, if the defender
/// bears it and took damage.
pub open spec fn damage_back(defender: PlayedCardView, damage: u32) -> u32 {
    if damage > 0 && defender.attached_tool == Some(ToolId::A2148RockyHelmet) {
        HELMET_DAMAGE
    } else {
        0
    }
}

/// The defender after the attack: damaged, and with what the attack's
/// effect does to it.
pub open spec fn defender_after(
    defender: PlayedCardView,
    damage: u32,
    effect: Option<AttackId>,
) -> PlayedCardView {
    let hit = PlayedCardView { remaining_hp: damaged(defender.remaining_hp, damage), ..defender };
    match effect {
        Some(AttackId::A1013VileplumeSoothingScent) => PlayedCardView { asleep: true, ..hit },
        Some(AttackId::A1017VenomothPoisonPowder) => PlayedCardView { poisoned: true, ..hit },
        Some(AttackId::A1165ArbokCorner) => PlayedCardView {
            effects: hit.effects.push((CardEffect::NoRetreat, 1u8)),
            ..hit
        },
        _ => hit,
    }
}

/// The attacker after the attack: with what the attack's effect does to
/// it, and then with the damage that it takes back.
pub open spec fn attacker_after(
    attacker: PlayedCardView,
    back: u32,
    effect: Option<AttackId>,
) -> PlayedCardView {
    let acted = match effect {
        Some(AttackId::A1003VenusaurMegaDrain) => PlayedCardView {
            remaining_hp: healed(attacker.remaining_hp, attacker.total_hp, DRAIN_HEAL),
            ..attacker
        },
        Some(AttackId::A1036CharizardExCrimsonStorm) => PlayedCardView {
            attached_energy: energy_discarded(
                energy_discarded(attacker.attached_energy, EnergyType::Fire),
                EnergyType::Fire,
            ),
            ..attacker
        },
        _ => attacker,
    };
    PlayedCardView { remaining_hp: damaged(acted.remaining_hp, back), ..acted }
}

/// The damage that an attack does and the damage that comes back, in this
/// order. Without both an attacker and a defender there is neither.
pub open spec fn blow(state: StateView, player: int, fixed_damage: u32) -> (u32, u32) {
    match (state.active(player), state.active(StateView::opponent(player))) {
        (Some(attacker), Some(defender)) => {
            let damage = attack_damage(attacker, fixed_damage, defender);
            (damage, damage_back(defender, damage))
        },
        _ => (0, 0),
    }
}

/// The state after a player's active creature has been hit.
pub open spec fn defender_hit(
    state: StateView,
    player: int,
    damage: u32,
    effect: Option<AttackId>,
) -> StateView {
    match state.active(player) {
        Some(defender) => state.set_slot(player, 0, Some(defender_after(defender, damage, effect))),
        None => state,
    }
}

/// The state after a player's active creature has gone through its own
/// attack.
pub open spec fn attacker_settled(
    state: StateView,
    player: int,
    back: u32,
    effect: Option<AttackId>,
) -> StateView {
    match state.active(player) {
        Some(attacker) => state.set_slot(player, 0, Some(attacker_after(attacker, back, effect))),
        None => state,
    }
}

/// The state after attacker and defender have exchanged blows: first the
/// defender is hit, then the attacker goes through its own attack.
pub open spec fn blows_exchanged(state: StateView, player: int, attack: AttackInHand) -> StateView {
    let (damage, back) = blow(state, player, attack.fixed_damage);
    attacker_settled(
        defender_hit(state, StateView::opponent(player), damage, attack.effect),
        player,
        back,
        attack.effect,
    )
}

/// The first free bench slot of a player below `n`, if there is one.
pub open spec fn first_free_bench_upto(state: StateView, player: int, n: int) -> Option<int>
    decreases n,
{
    if n <= 1 {
        None
    } else {
        match first_free_bench_upto(state, player, n - 1) {
            Some(i) => Some(i),
            None => if state.in_play(player, n - 1).is_none() {
                Some(n - 1)
            } else {
                None
            },
        }
    }
}

/// The first free bench slot of a player.
pub open spec fn first_free_bench(state: StateView, player: int) -> Option<int> {
    first_free_bench_upto(state, player, 4)
}

/// The first free bench slot is free, every bench slot before it is
/// occupied, and there is none only if the whole bench is occupied.
pub proof fn lemma_first_free_bench(state: StateView, player: int)
    ensures
        match first_free_bench(state, player) {
            Some(i) => 1 <= i < 4 && state.in_play(player, i).is_none() && forall|j: int|
                1 <= j < i ==> (#[trigger] state.in_play(player, j)).is_some(),
            None => forall|j: int| 1 <= j < 4 ==> (#[trigger] state.in_play(player, j)).is_some(),
        },
{
    reveal_with_fuel(first_free_bench_upto, 5);
}

/// Finds the first free bench slot of a player.
pub fn find_free_bench(state: &State, player: usize) -> (found: Option<usize>)
    requires
        player < 2,
    ensures
        match found {
            Some(i) => first_free_bench(state@, player as int) == Some(i as int) && 1 <= i < 4,
            None => first_free_bench(state@, player as int).is_none(),
        },
{
    let mut i: usize = 1;
    while i < 4
        invariant
            player < 2,
            1 <= i <= 4,
            first_free_bench_upto(state@, player as int, i as int).is_none(),
        decreases 4 - i,
    {
        let free = state.in_play_pokemon[player][i].is_none();
        assert(free == state@.in_play(player as int, i as int).is_none());
        if free {
            assert(first_free_bench_upto(state@, player as int, i + 1) == Some(i as int));
            assert(first_free_bench_upto(state@, player as int, 4) == Some(i as int)) by {
                if i + 1 < 4 {
                    assert(first_free_bench_upto(state@, player as int, i + 2) == Some(i as int));
                    if i + 2 < 4 {
                        assert(first_free_bench_upto(state@, player as int, i + 3) == Some(
                            i as int,
                        ));
                    }
                }
            }
            return Some(i);
        }
        i += 1;
    }
    None
}

/// A card as it is when it has just entered play.
pub open spec fn entering(card: CardView, played_this_turn: bool) -> PlayedCardView {
    PlayedCardView {
        card,
        remaining_hp: match card {
            CardView::Pokemon(creature) => creature.hp,
            CardView::Trainer(_) => 0,
        },
        total_hp: match card {
            CardView::Pokemon(creature) => creature.hp,
            CardView::Trainer(_) => 0,
        },
        attached_energy: Seq::empty(),
        attached_tool: None,
        played_this_turn,
        ability_used: false,
        poisoned: false,
        paralyzed: false,
        asleep: false,
        cards_behind: Seq::empty(),
        effects: Seq::empty(),
    }
}

/// The state after the multiplying attack has called one more creature of
/// the attacker's name from the deck: the first such card in the deck
/// moves to the first free bench slot. Without such a card, or without a
/// free slot, nothing moves.
pub open spec fn multiplied(state: StateView, player: int) -> StateView {
    match state.active(player) {
        Some(attacker) => match (
            first_creature_named(state.decks[player].cards, attacker.card.name()),
            first_free_bench(state, player),
        ) {
            (Some(k), Some(i)) => {
                let cards = state.decks[player].cards;
                state.set_deck_cards(player, cards.remove(k)).set_slot(
                    player,
                    i,
                    Some(entering(cards[k], true)),
                )
            },
            _ => state,
        },
        None => state,
    }
}

/// The state after what an attack's effect does to the board beyond the
/// two active creatures.
pub open spec fn board_effect(state: StateView, player: int, effect: Option<AttackId>) -> StateView {
    match effect {
        Some(AttackId::A2b001WeedleMultiply) => multiplied(state, player),
        _ => state,
    }
}

/// The moves that attach energy to a benched card of a player in a slot
/// below `n`, in slot order.
pub open spec fn bench_attachments_upto(
    state: StateView,
    player: int,
    energy: EnergyType,
    count: u8,
    n: int,
) -> Seq<SimpleActionView>
    decreases n,
{
    if n <= 1 {
        Seq::empty()
    } else {
        let rest = bench_attachments_upto(state, player, energy, count, n - 1);
        if state.in_play(player, n - 1).is_some() {
            rest.push(
                SimpleActionView::Attach {
                    in_play_idx: (n - 1) as usize,
                    energy,
                    count,
                    is_turn_energy: false,
                },
            )
        } else {
            rest
        }
    }
}

/// The state after the choice that an attack leaves to its player has been
/// made pending. Only the attack that attaches energy to the bench leaves
/// one: which benched card gets the energy. With an empty bench there is
/// nothing to choose.
pub open spec fn choice_requested(state: StateView, player: int, effect: Option<AttackId>) -> StateView {
    match effect {
        Some(AttackId::A2119DialgaExMetallicTurbo) => {
            let moves = bench_attachments_upto(state, player, EnergyType::Metal, 2, 4);
            if moves.len() > 0 {
                state.push_pending((player as usize, moves))
            } else {
                state
            }
        },
        _ => state,
    }
}

/// The state after an attack of a player's active creature.
///
/// The order is fixed: the attack's effects in full, then knockouts and
/// the outcome of the game, then the pending decisions. Of these the end of
/// the turn is the least urgent, promotions come before it, and the
/// attack's own choice comes first. Without such a creature or such an
/// attack nothing happens.
pub open spec fn attack_resolved(state: StateView, player: int, i: usize) -> StateView {
    match attack_in_hand(state, player, i) {
        Some(attack) => {
            let board = board_after_attack(state, player, attack);
            let ended = judged(board).push_pending(
                (player as usize, seq![SimpleActionView::EndTurn]),
            );
            choice_requested(promotions_requested(ended), player, attack.effect)
        },
        None => state,
    }
}

/// The board as an attack leaves it, before anything is made pending: the
/// attack's effects in full, and then the knockouts.
pub open spec fn board_after_attack(state: StateView, player: int, attack: AttackInHand) -> StateView {
    knock_out_all(board_effect(blows_exchanged(state, player, attack), player, attack.effect))
}

/// The order of an attack: what the attack does to the board is done in
/// full and the knockouts are resolved before anything is made pending.
/// The decisions that were pending before stay where they were; right
/// above them comes the end of the turn; promotions and the attack's own
/// choice come above that, so that they are answered first. Making them
/// pending changes neither the board nor the points.
pub proof fn lemma_attack_order(state: StateView, player: int, i: usize)
    requires
        state.current_player < 2,
        0 <= player < 2,
        attack_in_hand(state, player, i).is_some(),
    ensures
        ({
            let attack = attack_in_hand(state, player, i).unwrap();
            let board = board_after_attack(state, player, attack);
            let after = attack_resolved(state, player, i);
            let base = state.move_generation_stack.len() as int;
            &&& after.in_play_pokemon == board.in_play_pokemon
            &&& after.points == board.points
            &&& after.discard_piles == board.discard_piles
            &&& after.move_generation_stack.len() > base
            &&& after.move_generation_stack.take(base) == state.move_generation_stack
            &&& after.move_generation_stack[base] == (
                player as usize,
                seq![SimpleActionView::EndTurn],
            )
        }),
{
    let attack = attack_in_hand(state, player, i).unwrap();
    let s0 = blows_exchanged(state, player, attack);
    let s1 = board_effect(s0, player, attack.effect);
    let board = knock_out_all(s1);
    lemma_knock_out_keeps_the_rest(s1, 8);
    let s2 = judged(board);
    let s3 = s2.push_pending((player as usize, seq![SimpleActionView::EndTurn]));
    let me = s3.current_player as int;
    let p1 = promotion_requested(s3, StateView::opponent(me));
    let p2 = promotion_requested(p1, me);
    let after = choice_requested(p2, player, attack.effect);
    let base = state.move_generation_stack.len() as int;
    assert(s1.move_generation_stack == state.move_generation_stack);
    assert(s3.move_generation_stack.len() == base + 1);
    assert(s3.move_generation_stack.take(base) =~= state.move_generation_stack);
    assert(p1.move_generation_stack.take(base) =~= state.move_generation_stack);
    assert(p2.move_generation_stack.take(base) =~= state.move_generation_stack);
    assert(after.move_generation_stack.take(base) =~= state.move_generation_stack);
    assert(after == attack_resolved(state, player, i));
}

/// Reads the attack at position `i` of a player's active creature.
pub fn read_attack(state: &State, player: usize, i: usize) -> (attack: Option<AttackInHand>)
    requires
        player < 2,
    ensures
        attack == attack_in_hand(state@, player as int, i),
{
    match &state.in_play_pokemon[player][0] {
        Some(attacker) => {
            assert(state@.active(player as int) == Some(attacker@));
            match &attacker.card {
                Card::Pokemon(creature) => {
                    if i < creature.attacks.len() {
                        assert(creature@.attacks[i as int] == creature.attacks@[i as int]@);
                        Some(
                            AttackInHand {
                                fixed_damage: creature.attacks[i].fixed_damage,
                                effect: AttackId::from_pokemon_index(creature.id.as_str(), i),
                            },
                        )
                    } else {
                        None
                    }
                },
                Card::Trainer(_) => None,
            }
        },
        None => {
            assert(state@.active(player as int).is_none());
            None
        },
    }
}

/// Executable form of [`attack_damage`].
fn compute_damage(attacker: &PlayedCard, fixed_damage: u32, defender: &PlayedCard) -> (damage: u32)
    ensures
        damage == attack_damage(attacker@, fixed_damage, defender@),
{
    let weak = match (&defender.card, &attacker.card) {
        (Card::Pokemon(d), Card::Pokemon(a)) => d.weakness == Some(a.energy_type),
        _ => false,
    };
    if fixed_damage > 0 && weak {
        if fixed_damage > u32::MAX - WEAKNESS_DAMAGE {
            u32::MAX
        } else {
            fixed_damage + WEAKNESS_DAMAGE
        }
    } else {
        fixed_damage
    }
}

/// Measures the damage that an attack does and the damage that comes back.
pub fn measure_blow(state: &State, player: usize, fixed_damage: u32) -> (measured: (u32, u32))
    requires
        player < 2,
    ensures
        measured == blow(state@, player as int, fixed_damage),
{
    let other = (player + 1) % 2;
    match (&state.in_play_pokemon[player][0], &state.in_play_pokemon[other][0]) {
        (Some(attacker), Some(defender)) => {
            assert(state@.active(player as int) == Some(attacker@));
            assert(state@.active(other as int) == Some(defender@));
            let damage = compute_damage(attacker, fixed_damage, defender);
            let back = if damage > 0 && defender.attached_tool == Some(ToolId::A2148RockyHelmet) {
                HELMET_DAMAGE
            } else {
                0
            };
            (damage, back)
        },
        _ => {
            assert(state@.active(player as int).is_none() || state@.active(other as int).is_none());
            (0, 0)
        },
    }
}

/// Hits a player's active creature.
pub fn hit_defender(state: &mut State, player: usize, damage: u32, effect: Option<AttackId>)
    requires
        player < 2,
        old(state)@.wf(),
    ensures
        final(state)@ == defender_hit(old(state)@, player as int, damage, effect),
        final(state)@.wf(),
{
    match &mut state.in_play_pokemon[player][0] {
        Some(defender) => {
            defender.apply_damage(damage);
            match effect {
                Some(AttackId::A1013VileplumeSoothingScent) => {
                    defender.asleep = true;
                },
                Some(AttackId::A1017VenomothPoisonPowder) => {
                    defender.poisoned = true;
                },
                Some(AttackId::A1165ArbokCorner) => {
                    defender.add_effect(CardEffect::NoRetreat, 1);
                },
                _ => {},
            }
        },
        None => {},
    }
    proof {
        let want = defender_hit(old(state)@, player as int, damage, effect);
        assert(state@.in_play_pokemon[player as int] =~= want.in_play_pokemon[player as int]);
        assert(state@.in_play_pokemon =~= want.in_play_pokemon);
    }
}

/// Takes a player's active creature through its own attack.
pub fn settle_attacker(state: &mut State, player: usize, back: u32, effect: Option<AttackId>)
    requires
        player < 2,
        old(state)@.wf(),
    ensures
        final(state)@ == attacker_settled(old(state)@, player as int, back, effect),
        final(state)@.wf(),
{
    match &mut state.in_play_pokemon[player][0] {
        Some(attacker) => {
            match effect {
                Some(AttackId::A1003VenusaurMegaDrain) => {
                    attacker.heal(DRAIN_HEAL);
                },
                Some(AttackId::A1036CharizardExCrimsonStorm) => {
                    attacker.discard_energy(&EnergyType::Fire);
                    attacker.discard_energy(&EnergyType::Fire);
                },
                _ => {},
            }
            attacker.apply_damage(back);
        },
        None => {},
    }
    proof {
        let want = attacker_settled(old(state)@, player as int, back, effect);
        assert(state@.in_play_pokemon[player as int] =~= want.in_play_pokemon[player as int]);
        assert(state@.in_play_pokemon =~= want.in_play_pokemon);
    }
}

/// Carries out the exchange of blows.
pub fn exchange_blows(state: &mut State, player: usize, attack: &AttackInHand)
    requires
        player < 2,
        old(state)@.wf(),
    ensures
        final(state)@ == blows_exchanged(old(state)@, player as int, *attack),
        final(state)@.wf(),
{
    let (damage, back) = measure_blow(state, player, attack.fixed_damage);
    hit_defender(state, (player + 1) % 2, damage, attack.effect);
    settle_attacker(state, player, back, attack.effect);
}

/// Carries out the multiplying attack's call.
pub fn multiply(state: &mut State, player: usize)
    requires
        player < 2,
        old(state)@.wf(),
    ensures
        final(state)@ == multiplied(old(state)@, player as int),
        final(state)@.wf(),
{
    let name = match &state.in_play_pokemon[player][0] {
        Some(attacker) => {
            assert(state@.active(player as int) == Some(attacker@));
            attacker.get_name()
        },
        None => {
            assert(state@.active(player as int).is_none());
            return ;
        },
    };
    let in_deck = find_creature_named(&state.decks[player].cards, name.as_str());
    let free = find_free_bench(state, player);
    match (in_deck, free) {
        (Some(k), Some(i)) => {
            let card = state.remove_from_deck(player, k);
            assert(card is Pokemon);
            let played = to_playable_card(&card, true);
            assert(played@ == entering(card@, true));
            state.put_slot(player, i, Some(played));
        },
        _ => {},
    }
}

/// Carries out what an attack's effect does to the board beyond the two
/// active creatures.
pub fn apply_board_effect(state: &mut State, player: usize, effect: Option<AttackId>)
    requires
        player < 2,
        old(state)@.wf(),
    ensures
        final(state)@ == board_effect(old(state)@, player as int, effect),
        final(state)@.wf(),
{
    match effect {
        Some(AttackId::A2b001WeedleMultiply) => multiply(state, player),
        _ => {},
    }
}

/// The moves that attach energy to a benched card of a player.
pub fn bench_attachment_moves(state: &State, player: usize, energy: EnergyType, count: u8) -> (moves:
    Vec<SimpleAction>)
    requires
        player < 2,
    ensures
        simple_actions_view(moves@) == bench_attachments_upto(
            state@,
            player as int,
            energy,
            count,
            4,
        ),
{
    let mut moves: Vec<SimpleAction> = Vec::new();
    assert(simple_actions_view(moves@) =~= Seq::empty());
    let mut i: usize = 1;
    while i < 4
        invariant
            player < 2,
            1 <= i <= 4,
            simple_actions_view(moves@) == bench_attachments_upto(
                state@,
                player as int,
                energy,
                count,
                i as int,
            ),
        decreases 4 - i,
    {
        let occupied = state.in_play_pokemon[player][i].is_some();
        assert(occupied == state@.in_play(player as int, i as int).is_some());
        if occupied {
            let ghost before = moves@;
            moves.push(
                SimpleAction::Attach { in_play_idx: i, energy, count, is_turn_energy: false },
            );
            assert(simple_actions_view(moves@) =~= simple_actions_view(before).push(
                SimpleActionView::Attach { in_play_idx: i, energy, count, is_turn_energy: false },
            ));
        }
        i += 1;
    }
    moves
}

/// Makes the choice that an attack leaves to its player pending.
pub fn request_choice(state: &mut State, player: usize, effect: Option<AttackId>)
    requires
        player < 2,
        old(state)@.wf(),
    ensures
        final(state)@ == choice_requested(old(state)@, player as int, effect),
        final(state)@.wf(),
{
    match effect {
        Some(AttackId::A2119DialgaExMetallicTurbo) => {
            let moves = bench_attachment_moves(state, player, EnergyType::Metal, 2);
            if moves.len() > 0 {
                state.push_pending(player, moves);
            }
        },
        _ => {},
    }
}

/// Resolves an attack of a player's active creature.
pub fn resolve_attack(state: &mut State, player: usize, i: usize)
    requires
        player < 2,
        old(state)@.wf(),
    ensures
        final(state)@ == attack_resolved(old(state)@, player as int, i),
        final(state)@.wf(),
{
    let attack = match read_attack(state, player, i) {
        Some(attack) => attack,
        None => {
            return ;
        },
    };
    exchange_blows(state, player, &attack);
    apply_board_effect(state, player, attack.effect);
    check_knockouts(state);
    judge(state);
    let mut end: Vec<SimpleAction> = Vec::new();
    end.push(SimpleAction::EndTurn);
    assert(simple_actions_view(end@) =~= seq![SimpleActionView::EndTurn]);
    state.push_pending(player, end);
    request_promotions(state);
    request_choice(state, player, attack.effect);
}

} // verus!
