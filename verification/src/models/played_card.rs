//! A card in play: the card's definition together with everything that
//! changes while it sits on the board.

use vstd::prelude::*;

use crate::ability_ids::AbilityId;
use crate::effects::CardEffect;
use crate::models::card::cards_view;
use crate::models::card::clone_cards;
use crate::models::card::clone_energies;
use crate::models::card::Attack;
use crate::models::card::Card;
use crate::models::card::CardView;
use crate::models::card::EnergyType;
use crate::state::State;
use crate::state::StateView;
use crate::text::str_eq;
use crate::tool_ids::ToolId;

verus! {

/// Health after healing `amount`: never above the maximum.
pub open spec fn healed(remaining: u32, total: u32, amount: u32) -> u32 {
    if remaining + amount <= total {
        (remaining + amount) as u32
    } else {
        total
    }
}

/// Health after taking `damage`: never below zero.
pub open spec fn damaged(remaining: u32, damage: u32) -> u32 {
    if damage >= remaining {
        0
    } else {
        (remaining - damage) as u32
    }
}

/// One change to a creature's health.
pub enum HealthChange {
    Heal(u32),
    Damage(u32),
}

/// Health after a sequence of changes, applied first to last.
pub open spec fn health_after(remaining: u32, total: u32, changes: Seq<HealthChange>) -> u32
    decreases changes.len(),
{
    if changes.len() == 0 {
        remaining
    } else {
        let before = health_after(remaining, total, changes.drop_last());
        match changes.last() {
            HealthChange::Heal(amount) => healed(before, total, amount),
            HealthChange::Damage(damage) => damaged(before, damage),
        }
    }
}

/// Health clamp: whatever sequence of healing and damage a creature goes
/// through, its health stays between zero and its maximum.
pub proof fn lemma_health_stays_in_range(remaining: u32, total: u32, changes: Seq<HealthChange>)
    requires
        remaining <= total,
    ensures
        0 <= health_after(remaining, total, changes) <= total,
    decreases changes.len(),
{
    if changes.len() > 0 {
        lemma_health_stays_in_range(remaining, total, changes.drop_last());
    }
}

/// The timed effects left after one end of turn: those with no time left are
/// gone, the others have one turn less. The order is kept.
pub open spec fn decayed(effects: Seq<(CardEffect, u8)>) -> Seq<(CardEffect, u8)>
    decreases effects.len(),
{
    if effects.len() == 0 {
        Seq::empty()
    } else {
        let rest = decayed(effects.drop_last());
        let last = effects.last();
        if last.1 > 0 {
            rest.push((last.0, (last.1 - 1) as u8))
        } else {
            rest
        }
    }
}

/// Durations only go down: each effect that survives an end of turn comes
/// from an effect of the same kind that had exactly one more turn left, and
/// no effect appears from nothing.
pub proof fn lemma_decayed_durations(effects: Seq<(CardEffect, u8)>)
    ensures
        decayed(effects).len() <= effects.len(),
        forall|j: int|
            0 <= j < decayed(effects).len() ==> exists|i: int|
                0 <= i < effects.len() && effects[i].0 == (#[trigger] decayed(effects)[j]).0
                    && effects[i].1 == decayed(effects)[j].1 + 1,
    decreases effects.len(),
{
    if effects.len() > 0 {
        let front = effects.drop_last();
        lemma_decayed_durations(front);
        assert forall|j: int| 0 <= j < decayed(effects).len() implies exists|i: int|
            0 <= i < effects.len() && effects[i].0 == (#[trigger] decayed(effects)[j]).0
                && effects[i].1 == decayed(effects)[j].1 + 1 by {
            if j < decayed(front).len() {
                let i = choose|i: int|
                    0 <= i < front.len() && front[i].0 == decayed(front)[j].0 && front[i].1
                        == decayed(front)[j].1 + 1;
                assert(effects[i] == front[i]);
            } else {
                assert(effects[effects.len() - 1] == effects.last());
            }
        }
    }
}

/// The energies with every grass energy counted twice.
pub open spec fn grass_doubled(energies: Seq<EnergyType>) -> Seq<EnergyType>
    decreases energies.len(),
{
    if energies.len() == 0 {
        Seq::empty()
    } else {
        let rest = grass_doubled(energies.drop_last());
        if energies.last() == EnergyType::Grass {
            rest.push(EnergyType::Grass).push(EnergyType::Grass)
        } else {
            rest.push(energies.last())
        }
    }
}

/// The energies after discarding one of the given type: the first one of
/// that type is replaced by the last energy of the list, which is then
/// dropped. Without an energy of that type the list is unchanged.
pub open spec fn energy_discarded(energies: Seq<EnergyType>, energy: EnergyType) -> Seq<
    EnergyType,
> {
    match energies.index_of_first(energy) {
        Some(pos) => energies.update(pos, energies.last()).drop_last(),
        None => energies,
    }
}

/// A card in play.
#[derive(Debug, PartialEq, Eq, Hash)]
pub struct PlayedCard {
    pub card: Card,
    pub remaining_hp: u32,
    pub total_hp: u32,
    pub attached_energy: Vec<EnergyType>,
    pub attached_tool: Option<ToolId>,
    pub played_this_turn: bool,
    pub ability_used: bool,
    pub poisoned: bool,
    pub paralyzed: bool,
    pub asleep: bool,
    /// The earlier forms that this card evolved from.
    pub cards_behind: Vec<Card>,
    /// Timed effects, each with the number of turns it has left. They are
    /// cleared when the card moves to the bench.
    pub effects: Vec<(CardEffect, u8)>,
}

/// A card in play as contracts see it.
pub struct PlayedCardView {
    pub card: CardView,
    pub remaining_hp: u32,
    pub total_hp: u32,
    pub attached_energy: Seq<EnergyType>,
    pub attached_tool: Option<ToolId>,
    pub played_this_turn: bool,
    pub ability_used: bool,
    pub poisoned: bool,
    pub paralyzed: bool,
    pub asleep: bool,
    pub cards_behind: Seq<CardView>,
    pub effects: Seq<(CardEffect, u8)>,
}

impl View for PlayedCard {
    type V = PlayedCardView;

    open spec fn view(&self) -> PlayedCardView {
        PlayedCardView {
            card: self.card@,
            remaining_hp: self.remaining_hp,
            total_hp: self.total_hp,
            attached_energy: self.attached_energy@,
            attached_tool: self.attached_tool,
            played_this_turn: self.played_this_turn,
            ability_used: self.ability_used,
            poisoned: self.poisoned,
            paralyzed: self.paralyzed,
            asleep: self.asleep,
            cards_behind: cards_view(self.cards_behind@),
            effects: self.effects@,
        }
    }
}

impl PlayedCardView {
    /// The health invariant of a card in play.
    pub open spec fn wf(self) -> bool {
        self.remaining_hp <= self.total_hp
    }

    pub open spec fn is_damaged(self) -> bool {
        self.remaining_hp < self.total_hp
    }

    pub open spec fn has_status_condition(self) -> bool {
        self.poisoned || self.paralyzed || self.asleep
    }

    /// The kinds of the timed effects, in order.
    pub open spec fn active_effects(self) -> Seq<CardEffect> {
        self.effects.map_values(|e: (CardEffect, u8)| e.0)
    }

    /// Whether one of the earlier forms has the given name.
    pub open spec fn evolved_from(self, name: Seq<char>) -> bool {
        exists|i: int| 0 <= i < self.cards_behind.len() && self.cards_behind[i].name() == name
    }

    /// Whether the card has the ability that doubles grass energy.
    pub open spec fn has_jungle_totem(self) -> bool {
        AbilityId::of_id(self.card.id()) == Some(AbilityId::A1a006SerperiorJungleTotem)
    }

    /// The points that the opponent scores for knocking this card out.
    pub open spec fn knockout_points(self) -> u8 {
        if self.card.is_ex() {
            2
        } else {
            1
        }
    }
}

/// Copies a list of timed effects.
pub fn clone_effects(v: &Vec<(CardEffect, u8)>) -> (r: Vec<(CardEffect, u8)>)
    ensures
        r@ == v@,
{
    let mut out: Vec<(CardEffect, u8)> = Vec::new();
    let mut i: usize = 0;
    while i < v.len()
        invariant
            i <= v.len(),
            out@ == v@.take(i as int),
        decreases v.len() - i,
    {
        out.push(v[i]);
        assert(out@ =~= v@.take(i + 1));
        i += 1;
    }
    assert(v@.take(v.len() as int) =~= v@);
    out
}

impl Clone for PlayedCard {
    fn clone(&self) -> (r: Self)
        ensures
            r@ == self@,
    {
        PlayedCard {
            card: self.card.clone(),
            remaining_hp: self.remaining_hp,
            total_hp: self.total_hp,
            attached_energy: clone_energies(&self.attached_energy),
            attached_tool: self.attached_tool,
            played_this_turn: self.played_this_turn,
            ability_used: self.ability_used,
            poisoned: self.poisoned,
            paralyzed: self.paralyzed,
            asleep: self.asleep,
            cards_behind: clone_cards(&self.cards_behind),
            effects: clone_effects(&self.effects),
        }
    }
}

impl PlayedCard {
    /// A card that has just entered play: no tool, no status condition, no
    /// timed effect, ability unused.
    pub fn new(
        card: Card,
        remaining_hp: u32,
        total_hp: u32,
        attached_energy: Vec<EnergyType>,
        played_this_turn: bool,
        cards_behind: Vec<Card>,
    ) -> (played: Self)
        ensures
            played@ == (PlayedCardView {
                card: card@,
                remaining_hp,
                total_hp,
                attached_energy: attached_energy@,
                attached_tool: None,
                played_this_turn,
                ability_used: false,
                poisoned: false,
                paralyzed: false,
                asleep: false,
                cards_behind: cards_view(cards_behind@),
                effects: Seq::empty(),
            }),
    {
        PlayedCard {
            card,
            remaining_hp,
            total_hp,
            attached_energy,
            played_this_turn,
            cards_behind,
            attached_tool: None,
            ability_used: false,
            poisoned: false,
            paralyzed: false,
            asleep: false,
            effects: Vec::new(),
        }
    }

    pub fn get_id(&self) -> (id: String)
        ensures
            id@ == self@.card.id(),
    {
        self.card.get_id()
    }

    pub fn get_name(&self) -> (name: String)
        ensures
            name@ == self@.card.name(),
    {
        self.card.get_name()
    }

    /// The attacks of the creature. Only creatures have attacks.
    pub fn get_attacks(&self) -> (attacks: &Vec<Attack>)
        requires
            self.card is Pokemon,
        ensures
            *attacks == self.card->Pokemon_0.attacks,
    {
        match &self.card {
            Card::Pokemon(pokemon_card) => &pokemon_card.attacks,
            Card::Trainer(_) => {
                proof {
                    assert(false);
                }
                vstd::pervasive::unreached()
            },
        }
    }

    /// Heals `amount` damage; health stops at the maximum.
    pub fn heal(&mut self, amount: u32)
        ensures
            final(self)@ == (PlayedCardView {
                remaining_hp: healed(old(self).remaining_hp, old(self).total_hp, amount),
                ..old(self)@
            }),
    {
        if self.remaining_hp >= self.total_hp || amount >= self.total_hp - self.remaining_hp {
            self.remaining_hp = self.total_hp;
        } else {
            self.remaining_hp = self.remaining_hp + amount;
        }
    }

    /// Attaches `amount` energies of one type, after those already attached.
    pub fn attach_energy(&mut self, energy: &EnergyType, amount: u8)
        ensures
            final(self)@ == (PlayedCardView {
                attached_energy: old(self)@.attached_energy + Seq::new(
                    amount as nat,
                    |i: int| *energy,
                ),
                ..old(self)@
            }),
    {
        let mut k: u8 = 0;
        while k < amount
            invariant
                k <= amount,
                self@ == (PlayedCardView {
                    attached_energy: old(self)@.attached_energy + Seq::new(
                        k as nat,
                        |i: int| *energy,
                    ),
                    ..old(self)@
                }),
            decreases amount - k,
        {
            self.attached_energy.push(*energy);
            assert(self.attached_energy@ =~= old(self)@.attached_energy + Seq::new(
                (k + 1) as nat,
                |i: int| *energy,
            ));
            k += 1;
        }
        assert(self@.attached_energy =~= old(self)@.attached_energy + Seq::new(
            amount as nat,
            |i: int| *energy,
        ));
    }

    /// Discards one energy of the given type, if there is one.
    pub fn discard_energy(&mut self, energy: &EnergyType)
        ensures
            final(self)@ == (PlayedCardView {
                attached_energy: energy_discarded(old(self)@.attached_energy, *energy),
                ..old(self)@
            }),
    {
        let mut pos: usize = 0;
        while pos < self.attached_energy.len()
            invariant
                pos <= self.attached_energy.len(),
                *self == *old(self),
                forall|j: int| 0 <= j < pos ==> self.attached_energy@[j] != *energy,
            decreases self.attached_energy.len() - pos,
        {
            if self.attached_energy[pos] == *energy {
                proof {
                    let s = self.attached_energy@;
                    s.index_of_first_ensures(*energy);
                    assert(s[pos as int] == *energy);
                    assert(s.index_of_first(*energy) == Some(pos as int));
                }
                self.attached_energy.swap_remove(pos);
                return ;
            }
            pos += 1;
        }
        proof {
            let s = self.attached_energy@;
            s.index_of_first_ensures(*energy);
            assert(s.index_of_first(*energy).is_none());
        }
    }

    /// Deals `damage`; health stops at zero.
    pub fn apply_damage(&mut self, damage: u32)
        ensures
            final(self)@ == (PlayedCardView {
                remaining_hp: damaged(old(self).remaining_hp, damage),
                ..old(self)@
            }),
    {
        if damage >= self.remaining_hp {
            self.remaining_hp = 0;
        } else {
            self.remaining_hp = self.remaining_hp - damage;
        }
    }

    /// The element of the creature; a trainer card in play has none.
    pub fn get_energy_type(&self) -> (t: Option<EnergyType>)
        ensures
            t == self@.card.energy_type(),
    {
        self.card.get_type()
    }

    pub fn is_damaged(&self) -> (b: bool)
        ensures
            b == self@.is_damaged(),
    {
        self.remaining_hp < self.total_hp
    }

    pub fn has_status_condition(&self) -> (b: bool)
        ensures
            b == self@.has_status_condition(),
    {
        self.poisoned || self.paralyzed || self.asleep
    }

    pub fn has_tool_attached(&self) -> (b: bool)
        ensures
            b == self@.attached_tool.is_some(),
    {
        self.attached_tool.is_some()
    }

    /// Adds a timed effect. A duration of 0 lasts to the end of this turn, 1
    /// through the opponent's next turn, 2 through the owner's next turn.
    pub fn add_effect(&mut self, effect: CardEffect, duration: u8)
        ensures
            final(self)@ == (PlayedCardView {
                effects: old(self)@.effects.push((effect, duration)),
                ..old(self)@
            }),
    {
        self.effects.push((effect, duration));
    }

    /// The kinds of the timed effects, without their durations.
    pub fn get_active_effects(&self) -> (active: Vec<CardEffect>)
        ensures
            active@ == self@.active_effects(),
    {
        let mut out: Vec<CardEffect> = Vec::new();
        let mut i: usize = 0;
        while i < self.effects.len()
            invariant
                i <= self.effects.len(),
                out@.len() == i,
                forall|j: int| 0 <= j < i ==> out@[j] == self.effects@[j].0,
            decreases self.effects.len() - i,
        {
            out.push(self.effects[i].0);
            i += 1;
        }
        assert(out@ =~= self@.active_effects());
        out
    }

    /// Removes every status condition and every timed effect.
    pub fn clear_status_and_effects(&mut self)
        ensures
            final(self)@ == (PlayedCardView {
                poisoned: false,
                paralyzed: false,
                asleep: false,
                effects: Seq::empty(),
                ..old(self)@
            }),
    {
        self.poisoned = false;
        self.paralyzed = false;
        self.asleep = false;
        self.effects.clear();
    }

    /// Removes every status condition; timed effects stay.
    pub fn cure_status_conditions(&mut self)
        ensures
            final(self)@ == (PlayedCardView {
                poisoned: false,
                paralyzed: false,
                asleep: false,
                ..old(self)@
            }),
    {
        self.poisoned = false;
        self.paralyzed = false;
        self.asleep = false;
    }

    /// End-of-turn bookkeeping: timed effects lose one turn or expire, and
    /// the per-turn flags are reset. Status conditions are not touched.
    pub fn end_turn_maintenance(&mut self)
        ensures
            final(self)@ == (PlayedCardView {
                effects: decayed(old(self)@.effects),
                played_this_turn: false,
                ability_used: false,
                ..old(self)@
            }),
    {
        let mut kept: Vec<(CardEffect, u8)> = Vec::new();
        let mut i: usize = 0;
        while i < self.effects.len()
            invariant
                i <= self.effects.len(),
                *self == *old(self),
                kept@ == decayed(self.effects@.take(i as int)),
            decreases self.effects.len() - i,
        {
            let entry = self.effects[i];
            proof {
                assert(self.effects@.take(i + 1).drop_last() =~= self.effects@.take(i as int));
            }
            if entry.1 > 0 {
                kept.push((entry.0, entry.1 - 1));
            }
            i += 1;
        }
        proof {
            assert(self.effects@.take(self.effects.len() as int) =~= self.effects@);
        }
        self.effects = kept;
        self.played_this_turn = false;
        self.ability_used = false;
    }

    /// Whether one of the earlier forms of this card has the given name.
    pub fn evolved_from(&self, base_name: &str) -> (b: bool)
        ensures
            b == self@.evolved_from(base_name@),
    {
        let mut i: usize = 0;
        while i < self.cards_behind.len()
            invariant
                i <= self.cards_behind.len(),
                forall|j: int| 0 <= j < i ==> self@.cards_behind[j].name() != base_name@,
            decreases self.cards_behind.len() - i,
        {
            let name = self.cards_behind[i].get_name();
            if str_eq(name.as_str(), base_name) {
                assert(self@.cards_behind[i as int].name() == base_name@);
                return true;
            }
            i += 1;
        }
        false
    }

    /// The points that the opponent scores for knocking this card out: 2
    /// for an "ex" creature, 1 otherwise.
    pub fn get_knockout_points(&self) -> (points: u8)
        ensures
            points == self@.knockout_points(),
    {
        if self.card.is_ex() {
            2
        } else {
            1
        }
    }

    /// The attached energy as attack costs see it: with the grass-doubling
    /// ability at work for this card, every grass energy counts twice.
    pub fn get_effective_attached_energy(&self, state: &State, player: usize) -> (energies: Vec<
        EnergyType,
    >)
        requires
            player < 2,
        ensures
            energies@ == effective_energy(self@, state@, player as int),
    {
        let double_grass = self.has_double_grass(state, player);
        if double_grass {
            let mut doubled: Vec<EnergyType> = Vec::new();
            let mut i: usize = 0;
            while i < self.attached_energy.len()
                invariant
                    i <= self.attached_energy.len(),
                    doubled@ == grass_doubled(self.attached_energy@.take(i as int)),
                decreases self.attached_energy.len() - i,
            {
                let energy = self.attached_energy[i];
                proof {
                    assert(self.attached_energy@.take(i + 1).drop_last()
                        =~= self.attached_energy@.take(i as int));
                }
                doubled.push(energy);
                if energy == EnergyType::Grass {
                    doubled.push(EnergyType::Grass);
                }
                i += 1;
            }
            proof {
                assert(self.attached_energy@.take(self.attached_energy.len() as int)
                    =~= self.attached_energy@);
            }
            doubled
        } else {
            clone_energies(&self.attached_energy)
        }
    }

    /// Whether grass energy attached to this card counts twice: the card is
    /// a grass creature and its side has the grass-doubling ability in play.
    pub fn has_double_grass(&self, state: &State, player: usize) -> (b: bool)
        requires
            player < 2,
        ensures
            b == has_double_grass(self@, state@, player as int),
    {
        let pokemon_type = self.card.get_type();
        let jungle_totem_active = has_serperior_jungle_totem(state, player);
        jungle_totem_active && pokemon_type == Some(EnergyType::Grass)
    }
}

/// Whether a player has the grass-doubling ability in play.
pub open spec fn jungle_totem_in_play(state: StateView, player: int) -> bool {
    exists|i: int|
        0 <= i < 4 && ((#[trigger] state.in_play(player, i)) matches Some(card)
            && card.has_jungle_totem())
}

/// Whether grass energy attached to `card`, in play on the side of
/// `player`, counts twice.
pub open spec fn has_double_grass(card: PlayedCardView, state: StateView, player: int) -> bool {
    jungle_totem_in_play(state, player) && card.card.energy_type() == Some(EnergyType::Grass)
}

/// The attached energy of `card` as attack costs see it.
pub open spec fn effective_energy(card: PlayedCardView, state: StateView, player: int) -> Seq<
    EnergyType,
> {
    if has_double_grass(card, state, player) {
        grass_doubled(card.attached_energy)
    } else {
        card.attached_energy
    }
}

/// Whether a player has a creature in play whose ability makes grass energy
/// count twice.
pub fn has_serperior_jungle_totem(state: &State, player: usize) -> (b: bool)
    requires
        player < 2,
    ensures
        b == jungle_totem_in_play(state@, player as int),
{
    let mut i: usize = 0;
    while i < 4
        invariant
            player < 2,
            i <= 4,
            forall|j: int|
                0 <= j < i ==> !((#[trigger] state@.in_play(player as int, j)) matches Some(card)
                    && card.has_jungle_totem()),
        decreases 4 - i,
    {
        match &state.in_play_pokemon[player][i] {
            Some(card) => {
                let id = card.get_id();
                match AbilityId::from_pokemon_id(id.as_str()) {
                    Some(AbilityId::A1a006SerperiorJungleTotem) => {
                        assert(state@.in_play(player as int, i as int) == Some(card@));
                        return true;
                    },
                    _ => {
                        assert(state@.in_play(player as int, i as int) == Some(card@));
                    },
                }
            },
            None => {
                assert(state@.in_play(player as int, i as int).is_none());
            },
        }
        i += 1;
    }
    false
}

} // verus!
