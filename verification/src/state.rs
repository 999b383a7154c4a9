//! The game state: everything that two players and the rules can see and
//! change.

use vstd::prelude::*;

use crate::actions::types::clone_simple_actions;
use crate::actions::types::simple_actions_view;
use crate::actions::types::SimpleAction;
use crate::actions::types::SimpleActionView;
use crate::models::card::cards_view;
use crate::models::card::clone_cards;
use crate::models::card::clone_energies;
use crate::models::card::Card;
use crate::models::card::CardView;
use crate::models::card::EnergyType;
use crate::models::played_card::PlayedCard;
use crate::models::played_card::PlayedCardView;

verus! {

/// The number of points that wins the game.
pub const POINTS_TO_WIN: u8 = 3;

/// The number of turns after which a game without a winner is a tie.
pub const TURN_LIMIT: u8 = 100;

/// How a game ended.
#[derive(Clone, Copy, Debug, PartialEq, Eq, Hash, Structural)]
pub enum GameOutcome {
    Win(usize),
    Tie,
}

/// A deck: the cards left to draw, top card last, and the energy types that
/// the deck generates.
#[derive(Debug, PartialEq, Eq, Hash)]
pub struct Deck {
    pub cards: Vec<Card>,
    pub energy_types: Vec<EnergyType>,
}

/// A deck as contracts see it.
pub struct DeckView {
    pub cards: Seq<CardView>,
    pub energy_types: Seq<EnergyType>,
}

impl View for Deck {
    type V = DeckView;

    open spec fn view(&self) -> DeckView {
        DeckView { cards: cards_view(self.cards@), energy_types: self.energy_types@ }
    }
}

impl Clone for Deck {
    fn clone(&self) -> (r: Self)
        ensures
            r@ == self@,
    {
        Deck { cards: clone_cards(&self.cards), energy_types: clone_energies(&self.energy_types) }
    }
}

/// A pending decision: the player who must decide, and the moves to choose
/// from.
pub type Pending = (usize, Vec<SimpleAction>);

/// A pending decision as contracts see it.
pub type PendingView = (usize, Seq<SimpleActionView>);

/// View of one slot.
pub open spec fn slot_view(slot: Option<PlayedCard>) -> Option<PlayedCardView> {
    match slot {
        Some(card) => Some(card@),
        None => None,
    }
}

/// View of one side of the board.
pub open spec fn side_view(side: [Option<PlayedCard>; 4]) -> Seq<Option<PlayedCardView>> {
    side@.map_values(|slot: Option<PlayedCard>| slot_view(slot))
}

/// View of one pending decision.
pub open spec fn pending_view(pending: Pending) -> PendingView {
    (pending.0, simple_actions_view(pending.1@))
}

/// The whole game. Each player has four slots for cards in play: slot 0 is
/// the active slot, the others form the bench.
#[derive(Debug, PartialEq, Eq, Hash)]
pub struct State {
    /// How the game ended, once it has.
    pub winner: Option<GameOutcome>,
    pub points: [u8; 2],
    /// 0 during setup; the first turn is turn 1.
    pub turn_count: u8,
    pub current_player: usize,
    /// Pending decisions, most urgent last. While there is one, nothing else
    /// can be done.
    pub move_generation_stack: Vec<Pending>,
    /// The energy that the player whose turn it is may still attach.
    pub current_energy: Option<EnergyType>,
    pub hands: [Vec<Card>; 2],
    pub decks: [Deck; 2],
    pub discard_piles: [Vec<Card>; 2],
    pub discard_energies: [Vec<EnergyType>; 2],
    pub in_play_pokemon: [[Option<PlayedCard>; 4]; 2],
    pub has_played_support: bool,
    pub has_retreated: bool,
}

/// The game as contracts see it: the same fields, with every list as a
/// sequence and every card by its content.
pub struct StateView {
    pub winner: Option<GameOutcome>,
    pub points: Seq<u8>,
    pub turn_count: u8,
    pub current_player: usize,
    pub move_generation_stack: Seq<PendingView>,
    pub current_energy: Option<EnergyType>,
    pub hands: Seq<Seq<CardView>>,
    pub decks: Seq<DeckView>,
    pub discard_piles: Seq<Seq<CardView>>,
    pub discard_energies: Seq<Seq<EnergyType>>,
    pub in_play_pokemon: Seq<Seq<Option<PlayedCardView>>>,
    pub has_played_support: bool,
    pub has_retreated: bool,
}

impl View for State {
    type V = StateView;

    open spec fn view(&self) -> StateView {
        StateView {
            winner: self.winner,
            points: self.points@,
            turn_count: self.turn_count,
            current_player: self.current_player,
            move_generation_stack: self.move_generation_stack@.map_values(
                |p: Pending| pending_view(p),
            ),
            current_energy: self.current_energy,
            hands: self.hands@.map_values(|h: Vec<Card>| cards_view(h@)),
            decks: self.decks@.map_values(|d: Deck| d@),
            discard_piles: self.discard_piles@.map_values(|h: Vec<Card>| cards_view(h@)),
            discard_energies: self.discard_energies@.map_values(|e: Vec<EnergyType>| e@),
            in_play_pokemon: self.in_play_pokemon@.map_values(
                |side: [Option<PlayedCard>; 4]| side_view(side),
            ),
            has_played_support: self.has_played_support,
            has_retreated: self.has_retreated,
        }
    }
}

impl StateView {
    /// The shape that every state has: two players, four slots a side.
    pub open spec fn shaped(self) -> bool {
        &&& self.points.len() == 2
        &&& self.hands.len() == 2
        &&& self.decks.len() == 2
        &&& self.discard_piles.len() == 2
        &&& self.discard_energies.len() == 2
        &&& self.in_play_pokemon.len() == 2
        &&& self.in_play_pokemon[0].len() == 4
        &&& self.in_play_pokemon[1].len() == 4
    }

    /// The invariant of a state: it has the shape above, every player that
    /// it names is player 0 or player 1, and every pending decision has at
    /// least one move to choose from.
    pub open spec fn wf(self) -> bool {
        &&& self.shaped()
        &&& self.current_player < 2
        &&& forall|k: int|
            0 <= k < self.move_generation_stack.len() ==> (#[trigger] self.move_generation_stack[k]).0
                < 2 && self.move_generation_stack[k].1.len() > 0
    }

    /// The card in a slot.
    pub open spec fn in_play(self, player: int, idx: int) -> Option<PlayedCardView> {
        self.in_play_pokemon[player][idx]
    }

    /// The card in the active slot.
    pub open spec fn active(self, player: int) -> Option<PlayedCardView> {
        self.in_play(player, 0)
    }

    /// Whether a player has a card on the bench.
    pub open spec fn has_bench(self, player: int) -> bool {
        exists|i: int| 1 <= i < 4 && (#[trigger] self.in_play(player, i)).is_some()
    }

    /// Whether the card in a slot is a creature of the given element.
    pub open spec fn slot_is_of_type(self, player: int, idx: int, energy: EnergyType) -> bool {
        match self.in_play(player, idx) {
            Some(card) => card.card.energy_type() == Some(energy),
            None => false,
        }
    }

    /// The number of creatures of a player in slots below `upto` that have
    /// the given element.
    pub open spec fn count_of_type(self, player: int, upto: int, energy: EnergyType) -> nat
        decreases upto,
    {
        if upto <= 0 {
            0
        } else {
            self.count_of_type(player, upto - 1, energy) + if self.slot_is_of_type(
                player,
                upto - 1,
                energy,
            ) {
                1nat
            } else {
                0nat
            }
        }
    }

    /// Whether each player is still in the first turn of their own.
    pub open spec fn is_users_first_turn(self) -> bool {
        self.turn_count <= 2
    }

    pub open spec fn is_game_over(self) -> bool {
        self.winner.is_some()
    }

    /// The other player.
    pub open spec fn opponent(player: int) -> int {
        (player + 1) % 2
    }
}

/// Copies the pending decisions.
pub fn clone_stack(v: &Vec<Pending>) -> (r: Vec<Pending>)
    ensures
        r@.map_values(|p: Pending| pending_view(p)) == v@.map_values(|p: Pending| pending_view(p)),
{
    let mut out: Vec<Pending> = Vec::new();
    let mut i: usize = 0;
    while i < v.len()
        invariant
            i <= v.len(),
            out@.len() == i,
            forall|j: int| 0 <= j < i ==> pending_view(out@[j]) == pending_view(v@[j]),
        decreases v.len() - i,
    {
        out.push((v[i].0, clone_simple_actions(&v[i].1)));
        i += 1;
    }
    assert(out@.map_values(|p: Pending| pending_view(p)) =~= v@.map_values(
        |p: Pending| pending_view(p),
    ));
    out
}

/// Copies one slot.
pub fn clone_slot(slot: &Option<PlayedCard>) -> (r: Option<PlayedCard>)
    ensures
        slot_view(r) == slot_view(*slot),
{
    match slot {
        Some(card) => Some(card.clone()),
        None => None,
    }
}

/// Copies one side of the board.
pub fn clone_side(side: &[Option<PlayedCard>; 4]) -> (r: [Option<PlayedCard>; 4])
    ensures
        side_view(r) == side_view(*side),
{
    let r = [clone_slot(&side[0]), clone_slot(&side[1]), clone_slot(&side[2]), clone_slot(&side[3])];
    assert(side_view(r) =~= side_view(*side));
    r
}

impl Clone for State {
    /// An independent copy: equal in content, sharing nothing.
    fn clone(&self) -> (r: Self)
        ensures
            r@ == self@,
    {
        let r = State {
            winner: self.winner,
            points: [self.points[0], self.points[1]],
            turn_count: self.turn_count,
            current_player: self.current_player,
            move_generation_stack: clone_stack(&self.move_generation_stack),
            current_energy: self.current_energy,
            hands: [clone_cards(&self.hands[0]), clone_cards(&self.hands[1])],
            decks: [self.decks[0].clone(), self.decks[1].clone()],
            discard_piles: [
                clone_cards(&self.discard_piles[0]),
                clone_cards(&self.discard_piles[1]),
            ],
            discard_energies: [
                clone_energies(&self.discard_energies[0]),
                clone_energies(&self.discard_energies[1]),
            ],
            in_play_pokemon: [
                clone_side(&self.in_play_pokemon[0]),
                clone_side(&self.in_play_pokemon[1]),
            ],
            has_played_support: self.has_played_support,
            has_retreated: self.has_retreated,
        };
        proof {
            assert(r@.points =~= self@.points);
            assert(r@.hands =~= self@.hands);
            assert(r@.decks =~= self@.decks);
            assert(r@.discard_piles =~= self@.discard_piles);
            assert(r@.discard_energies =~= self@.discard_energies);
            assert(r@.in_play_pokemon =~= self@.in_play_pokemon);
        }
        r
    }
}

impl State {
    /// A state before setup, with the two decks in place and nothing else.
    pub fn new(deck_a: &Deck, deck_b: &Deck) -> (state: Self)
        ensures
            state@ == (StateView {
                decks: seq![deck_a@, deck_b@],
                ..State::empty_view()
            }),
    {
        let state = State {
            winner: None,
            points: [0, 0],
            turn_count: 0,
            current_player: 0,
            move_generation_stack: Vec::new(),
            current_energy: None,
            hands: [Vec::new(), Vec::new()],
            decks: [deck_a.clone(), deck_b.clone()],
            discard_piles: [Vec::new(), Vec::new()],
            discard_energies: [Vec::new(), Vec::new()],
            in_play_pokemon: [[None, None, None, None], [None, None, None, None]],
            has_played_support: false,
            has_retreated: false,
        };
        proof {
            let want = StateView { decks: seq![deck_a@, deck_b@], ..State::empty_view() };
            assert(state@.points =~= want.points);
            assert(state@.move_generation_stack =~= want.move_generation_stack);
            assert(state@.hands[0] =~= want.hands[0]);
            assert(state@.hands[1] =~= want.hands[1]);
            assert(state@.hands =~= want.hands);
            assert(state@.discard_piles[0] =~= want.discard_piles[0]);
            assert(state@.discard_piles[1] =~= want.discard_piles[1]);
            assert(state@.decks =~= want.decks);
            assert(state@.discard_piles =~= want.discard_piles);
            assert(state@.discard_energies =~= want.discard_energies);
            assert(state@.in_play_pokemon[0] =~= want.in_play_pokemon[0]);
            assert(state@.in_play_pokemon[1] =~= want.in_play_pokemon[1]);
            assert(state@.in_play_pokemon =~= want.in_play_pokemon);
        }
        state
    }

    /// The view of the state in which nothing has happened: no cards
    /// anywhere, no points, setup not yet begun, player 0 to act.
    pub open spec fn empty_view() -> StateView {
        let no_cards = Seq::<CardView>::empty();
        let empty_side = seq![
            None::<PlayedCardView>,
            None::<PlayedCardView>,
            None::<PlayedCardView>,
            None::<PlayedCardView>,
        ];
        StateView {
            winner: None,
            points: seq![0u8, 0u8],
            turn_count: 0,
            current_player: 0,
            move_generation_stack: Seq::empty(),
            current_energy: None,
            hands: seq![no_cards, no_cards],
            decks: seq![
                DeckView { cards: no_cards, energy_types: Seq::empty() },
                DeckView { cards: no_cards, energy_types: Seq::empty() },
            ],
            discard_piles: seq![no_cards, no_cards],
            discard_energies: seq![Seq::<EnergyType>::empty(), Seq::<EnergyType>::empty()],
            in_play_pokemon: seq![empty_side, empty_side],
            has_played_support: false,
            has_retreated: false,
        }
    }

    /// The health left of the card in a slot.
    pub fn get_remaining_hp(&self, player: usize, index: usize) -> (hp: u32)
        requires
            player < 2,
            index < 4,
            self@.in_play(player as int, index as int).is_some(),
        ensures
            hp == self@.in_play(player as int, index as int).unwrap().remaining_hp,
    {
        match &self.in_play_pokemon[player][index] {
            Some(card) => card.remaining_hp,
            None => 0,
        }
    }

    /// The active card of a player, if the active slot is occupied.
    pub fn maybe_get_active(&self, player: usize) -> (active: Option<&PlayedCard>)
        requires
            player < 2,
        ensures
            match active {
                Some(card) => self.in_play_pokemon[player as int][0] == Some(*card),
                None => self.in_play_pokemon[player as int][0].is_none(),
            },
    {
        self.in_play_pokemon[player][0].as_ref()
    }

    /// The active card of a player whose active slot is occupied.
    pub fn get_active(&self, player: usize) -> (active: &PlayedCard)
        requires
            player < 2,
            self.in_play_pokemon[player as int][0].is_some(),
        ensures
            self.in_play_pokemon[player as int][0] == Some(*active),
    {
        self.in_play_pokemon[player][0].as_ref().unwrap()
    }

    /// The occupied slots of a player from slot `from` on, in slot order,
    /// each with its card.
    fn enumerate_from(&self, player: usize, from: usize) -> (found: Vec<(usize, &PlayedCard)>)
        requires
            player < 2,
            from <= 4,
        ensures
            State::lists_slots(self.in_play_pokemon[player as int], from as int, found@),
    {
        let mut found: Vec<(usize, &PlayedCard)> = Vec::new();
        let mut i: usize = from;
        while i < 4
            invariant
                player < 2,
                from <= i <= 4,
                forall|k: int|
                    0 <= k < found@.len() ==> from <= (#[trigger] found@[k]).0 < i
                        && self.in_play_pokemon[player as int][found@[k].0 as int] == Some(
                        *found@[k].1,
                    ),
                forall|k: int, l: int|
                    0 <= k < l < found@.len() ==> (#[trigger] found@[k]).0 < (#[trigger] found@[l]).0,
                forall|j: int|
                    from <= j < i && self.in_play_pokemon[player as int][j].is_some() ==> exists|
                        k: int,
                    |
                        0 <= k < found@.len() && (#[trigger] found@[k]).0 == j,
            decreases 4 - i,
        {
            match &self.in_play_pokemon[player][i] {
                Some(card) => {
                    let ghost before = found@;
                    found.push((i, card));
                    proof {
                        assert(found@[before.len() as int].0 == i);
                        assert forall|j: int|
                            from <= j < i + 1 && self.in_play_pokemon[player as int][j].is_some() implies exists|
                            k: int,
                        |
                            0 <= k < found@.len() && (#[trigger] found@[k]).0 == j by {
                            if j < i {
                                let k = choose|k: int|
                                    0 <= k < before.len() && (#[trigger] before[k]).0 == j;
                                assert(found@[k] == before[k]);
                            }
                        }
                    }
                },
                None => {},
            }
            i += 1;
        }
        found
    }

    /// Whether `found` lists exactly the occupied slots of one side from
    /// slot `from` on, in slot order, each with its card.
    pub open spec fn lists_slots(
        side: [Option<PlayedCard>; 4],
        from: int,
        found: Seq<(usize, &PlayedCard)>,
    ) -> bool {
        &&& forall|k: int|
            0 <= k < found.len() ==> from <= (#[trigger] found[k]).0 < 4 && side[found[k].0 as int]
                == Some(*found[k].1)
        &&& forall|k: int, l: int|
            0 <= k < l < found.len() ==> (#[trigger] found[k]).0 < (#[trigger] found[l]).0
        &&& forall|j: int|
            from <= j < 4 && side[j].is_some() ==> exists|k: int|
                0 <= k < found.len() && (#[trigger] found[k]).0 == j
    }

    /// The cards in play of a player, each with its slot, in slot order.
    pub fn enumerate_in_play_pokemon(&self, player: usize) -> (found: Vec<(usize, &PlayedCard)>)
        requires
            player < 2,
        ensures
            State::lists_slots(self.in_play_pokemon[player as int], 0, found@),
    {
        self.enumerate_from(player, 0)
    }

    /// The benched cards of a player, each with its slot, in slot order.
    pub fn enumerate_bench_pokemon(&self, player: usize) -> (found: Vec<(usize, &PlayedCard)>)
        requires
            player < 2,
        ensures
            State::lists_slots(self.in_play_pokemon[player as int], 1, found@),
    {
        self.enumerate_from(player, 1)
    }

    /// The number of creatures in play of a player that have the given
    /// element.
    pub fn num_in_play_of_type(&self, player: usize, energy: EnergyType) -> (count: usize)
        requires
            player < 2,
        ensures
            count == self@.count_of_type(player as int, 4, energy),
    {
        let mut count: usize = 0;
        let mut i: usize = 0;
        while i < 4
            invariant
                player < 2,
                i <= 4,
                count <= i,
                count == self@.count_of_type(player as int, i as int, energy),
            decreases 4 - i,
        {
            match &self.in_play_pokemon[player][i] {
                Some(card) => {
                    if card.get_energy_type() == Some(energy) {
                        count += 1;
                    }
                },
                None => {},
            }
            i += 1;
        }
        count
    }

    /// Whether the state meets its invariant.
    pub fn is_well_formed(&self) -> (ok: bool)
        ensures
            ok == self@.wf(),
    {
        if self.current_player >= 2 {
            return false;
        }
        let mut k: usize = 0;
        while k < self.move_generation_stack.len()
            invariant
                k <= self.move_generation_stack.len(),
                self@.current_player < 2,
                forall|j: int|
                    0 <= j < k ==> (#[trigger] self@.move_generation_stack[j]).0 < 2
                        && self@.move_generation_stack[j].1.len() > 0,
            decreases self.move_generation_stack.len() - k,
        {
            let pending = &self.move_generation_stack[k];
            assert(self@.move_generation_stack[k as int] == pending_view(*pending));
            if pending.0 >= 2 || pending.1.len() == 0 {
                return false;
            }
            k += 1;
        }
        true
    }

    /// Whether each player is still in the first turn of their own.
    pub fn is_users_first_turn(&self) -> (b: bool)
        ensures
            b == self@.is_users_first_turn(),
    {
        self.turn_count <= 2
    }

    pub fn is_game_over(&self) -> (b: bool)
        ensures
            b == self@.is_game_over(),
    {
        self.winner.is_some()
    }
}

impl Default for State {
    /// The state in which nothing has happened.
    fn default() -> (state: Self)
        ensures
            state@ == State::empty_view(),
    {
        let state = State {
            winner: None,
            points: [0, 0],
            turn_count: 0,
            current_player: 0,
            move_generation_stack: Vec::new(),
            current_energy: None,
            hands: [Vec::new(), Vec::new()],
            decks: [
                Deck { cards: Vec::new(), energy_types: Vec::new() },
                Deck { cards: Vec::new(), energy_types: Vec::new() },
            ],
            discard_piles: [Vec::new(), Vec::new()],
            discard_energies: [Vec::new(), Vec::new()],
            in_play_pokemon: [[None, None, None, None], [None, None, None, None]],
            has_played_support: false,
            has_retreated: false,
        };
        proof {
            let want = State::empty_view();
            assert(state@.points =~= want.points);
            assert(state@.move_generation_stack =~= want.move_generation_stack);
            assert(state@.hands[0] =~= want.hands[0]);
            assert(state@.hands[1] =~= want.hands[1]);
            assert(state@.hands =~= want.hands);
            assert(state@.discard_piles[0] =~= want.discard_piles[0]);
            assert(state@.discard_piles[1] =~= want.discard_piles[1]);
            assert(state.decks@[0]@.cards =~= want.decks[0].cards);
            assert(state.decks@[1]@.cards =~= want.decks[1].cards);
            assert(state@.decks =~= want.decks);
            assert(state@.discard_piles =~= want.discard_piles);
            assert(state@.discard_energies =~= want.discard_energies);
            assert(state@.in_play_pokemon[0] =~= want.in_play_pokemon[0]);
            assert(state@.in_play_pokemon[1] =~= want.in_play_pokemon[1]);
            assert(state@.in_play_pokemon =~= want.in_play_pokemon);
        }
        state
    }
}

} // verus!
