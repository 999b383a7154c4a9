//! The game driver: it asks for the legal actions, lets the player who must
//! act choose one, applies the choice, and goes on until the game is over.

use rand::rngs::StdRng;
use vstd::prelude::*;

use crate::actions::apply_action::apply_action;
use crate::actions::apply_action::picks;
use crate::actions::apply_action::step;
use crate::actions::types::actions_view;
use crate::actions::types::Action;
use crate::actions::types::ActionView;
use crate::move_generation::generator::generate_possible_actions;
use crate::move_generation::generator::lemma_some_action_is_legal;
use crate::move_generation::generator::possible_actions;
use crate::players::is_one_of;
use crate::players::settle_choice;
use crate::players::Player;
use crate::rng::seeded_rng;
use crate::state::DeckView;
use crate::state::GameOutcome;
use crate::state::State;
use crate::state::StateView;

verus! {

/// The number of decisions after which a game that is still going is
/// called a tie.
pub const TICK_LIMIT: u32 = 100_000;

/// An observer of a game. After each decision it is told who acted, which
/// actions were legal, and which one was chosen. It sees neither the state
/// nor the random source, so it cannot change how the game goes.
pub trait SimulationEventHandler {
    fn on_action(&mut self, actor: usize, playable_actions: &Vec<Action>, action: &Action);
}

/// One decision of a game: the action that was chosen, and the pick that
/// the random source made for it.
pub struct Decision {
    pub action: ActionView,
    pub pick: usize,
}

/// Whether an action is legal in a state: it is one of the state's legal
/// actions.
pub open spec fn is_legal(state: StateView, action: ActionView) -> bool {
    is_one_of(action, possible_actions(state).1)
}

/// Whether a pick is one that the random source can make in a state.
pub open spec fn is_valid_pick(state: StateView, pick: usize) -> bool {
    pick == 0 || pick < picks(state)
}

/// The state after a run of decisions, applied first to last.
pub open spec fn run(state: StateView, decisions: Seq<Decision>) -> StateView
    decreases decisions.len(),
{
    if decisions.len() == 0 {
        state
    } else {
        step(run(state, decisions.drop_last()), decisions.last().action, decisions.last().pick)
    }
}

/// Whether a run of decisions is one that a game can go through from a
/// state: each decision is made while the game is still going, is legal in
/// the state that the decisions before it lead to, and comes with a pick
/// that the random source can make there.
pub open spec fn is_play(state: StateView, decisions: Seq<Decision>) -> bool {
    forall|k: int|
        0 <= k < decisions.len() ==> {
            let at = #[trigger] run(state, decisions.take(k));
            &&& !at.is_game_over()
            &&& is_legal(at, decisions[k].action)
            &&& is_valid_pick(at, decisions[k].pick)
        }
}

/// A state with the game called a tie, unless it is over already.
pub open spec fn called_off(state: StateView) -> StateView {
    if state.is_game_over() {
        state
    } else {
        StateView { winner: Some(GameOutcome::Tie), ..state }
    }
}

/// The same decisions lead to the same game: what a game goes through is
/// determined by the state that it starts from, the actions that the
/// players choose, and the picks of the random source.
pub proof fn lemma_same_decisions_same_game(state: StateView, a: Seq<Decision>, b: Seq<Decision>)
    requires
        a.len() == b.len(),
        forall|k: int| 0 <= k < a.len() ==> a[k] == b[k],
    ensures
        run(state, a) == run(state, b),
        forall|k: int| 0 <= k <= a.len() ==> run(state, a.take(k)) == run(state, b.take(k)),
{
    assert(a =~= b);
}

/// A play goes on by one decision.
proof fn lemma_play_goes_on(start: StateView, decisions: Seq<Decision>, next: Decision)
    requires
        is_play(start, decisions),
        !run(start, decisions).is_game_over(),
        is_legal(run(start, decisions), next.action),
        is_valid_pick(run(start, decisions), next.pick),
    ensures
        is_play(start, decisions.push(next)),
        run(start, decisions.push(next)) == step(run(start, decisions), next.action, next.pick),
{
    let longer = decisions.push(next);
    assert(longer.drop_last() =~= decisions);
    assert forall|k: int| 0 <= k < longer.len() implies {
        let at = #[trigger] run(start, longer.take(k));
        &&& !at.is_game_over()
        &&& is_legal(at, longer[k].action)
        &&& is_valid_pick(at, longer[k].pick)
    } by {
        if k < decisions.len() {
            assert(longer.take(k) =~= decisions.take(k));
        } else {
            assert(longer.take(k) =~= decisions);
        }
    }
}

/// A game between two players.
pub struct Game {
    seed: u64,
    rng: StdRng,
    players: Vec<Box<dyn Player>>,
    state: State,
    event_handler: Option<Box<dyn SimulationEventHandler>>,
}

impl Game {
    /// The state of the game.
    pub closed spec fn state_view(&self) -> StateView {
        self.state@
    }

    /// The seed that the game's random source was started from.
    pub closed spec fn seed_value(&self) -> u64 {
        self.seed
    }

    /// The observer that the game reports to, if it has one.
    pub closed spec fn observer(&self) -> Option<Box<dyn SimulationEventHandler>> {
        self.event_handler
    }

    /// The invariant of a game: its state is well formed, and it has its
    /// two players.
    pub closed spec fn wf(&self) -> bool {
        self.state@.wf() && self.players.len() >= 2
    }

    /// A game that goes on from a given state.
    pub fn from_state(state: State, players: Vec<Box<dyn Player>>, seed: u64) -> (game: Self)
        requires
            state@.wf(),
            players.len() >= 2,
        ensures
            game.wf(),
            game.state_view() == state@,
            game.seed_value() == seed,
            game.observer().is_none(),
    {
        let rng = seeded_rng(seed);
        Game { seed, rng, players, state, event_handler: None }
    }

    /// A new game between two players, each with the deck that the player
    /// brings. A coin names the player who moves first, the decks are
    /// shuffled, and the opening hands are dealt.
    pub fn new(players: Vec<Box<dyn Player>>, seed: u64) -> (game: Self)
        requires
            players.len() >= 2,
        ensures
            game.wf(),
            game.seed_value() == seed,
            game.observer().is_none(),
            exists|deck_a: DeckView, deck_b: DeckView, first: usize|
                first < 2 && game.state_view() == #[trigger] State::opening(deck_a, deck_b, first),
    {
        let mut rng = seeded_rng(seed);
        let deck_a = players[0].get_deck();
        let deck_b = players[1].get_deck();
        let state = State::initialize(&deck_a, &deck_b, &mut rng);
        Game { seed, rng, players, state, event_handler: None }
    }

    /// A new game that reports every decision to an observer. The game
    /// keeps the observer until it is taken back.
    pub fn new_with_event_handlers(
        players: Vec<Box<dyn Player>>,
        seed: u64,
        event_handler: Box<dyn SimulationEventHandler>,
    ) -> (game: Self)
        requires
            players.len() >= 2,
        ensures
            game.wf(),
            game.seed_value() == seed,
            game.observer().is_some(),
            exists|deck_a: DeckView, deck_b: DeckView, first: usize|
                first < 2 && game.state_view() == #[trigger] State::opening(deck_a, deck_b, first),
    {
        let mut rng = seeded_rng(seed);
        let deck_a = players[0].get_deck();
        let deck_b = players[1].get_deck();
        let state = State::initialize(&deck_a, &deck_b, &mut rng);
        Game { seed, rng, players, state, event_handler: Some(event_handler) }
    }

    /// Plays until the game is over and tells how it ended.
    ///
    /// The game goes through a run of legal decisions, one at a time,
    /// until it is over. A game that is still going after the limit of
    /// decisions is called a tie.
    pub fn play(&mut self) -> (outcome: Option<GameOutcome>)
        requires
            old(self).wf(),
        ensures
            final(self).wf(),
            final(self).observer().is_some() == old(self).observer().is_some(),
            outcome.is_some(),
            outcome == final(self).state_view().winner,
            exists|decisions: Seq<Decision>|
                #![trigger is_play(old(self).state_view(), decisions)]
                {
                    let end = run(old(self).state_view(), decisions);
                    &&& is_play(old(self).state_view(), decisions)
                    &&& decisions.len() <= TICK_LIMIT
                    &&& end.is_game_over() || decisions.len() == TICK_LIMIT
                    &&& final(self).state_view() == called_off(end)
                },
    {
        let ghost start = self.state@;
        let ghost mut decisions: Seq<Decision> = Seq::empty();
        let mut ticks: u32 = 0;
        while !self.state.is_game_over() && ticks < TICK_LIMIT
            invariant
                self.wf(),
                self.observer().is_some() == old(self).observer().is_some(),
                ticks <= TICK_LIMIT,
                decisions.len() == ticks,
                is_play(start, decisions),
                self.state@ == run(start, decisions),
            decreases TICK_LIMIT - ticks,
        {
            let ghost before = self.state@;
            let action = self.play_tick();
            proof {
                let pick = choose|pick: usize|
                    is_valid_pick(before, pick) && self.state@ == #[trigger] step(
                        before,
                        action@,
                        pick,
                    );
                let next = Decision { action: action@, pick };
                lemma_play_goes_on(start, decisions, next);
                decisions = decisions.push(next);
            }
            ticks += 1;
        }
        let ghost end = self.state@;
        if !self.state.is_game_over() {
            self.state.winner = Some(GameOutcome::Tie);
        }
        proof {
            assert(is_play(start, decisions));
            assert(self.state@ == called_off(end));
            assert(self.state@.move_generation_stack == end.move_generation_stack);
        }
        self.state.winner
    }

    /// Goes through one decision and tells which action was taken.
    ///
    /// The player who must act chooses among the legal actions; where
    /// there is only one, it is taken without asking. An answer that is not
    /// one of the legal actions counts as the choice of the first legal
    /// action. The action is then applied.
    pub fn play_tick(&mut self) -> (action: Action)
        requires
            old(self).wf(),
        ensures
            final(self).wf(),
            final(self).observer().is_some() == old(self).observer().is_some(),
            is_legal(old(self).state_view(), action@),
            exists|pick: usize|
                is_valid_pick(old(self).state_view(), pick) && final(self).state_view()
                    == #[trigger] step(old(self).state_view(), action@, pick),
    {
        let (actor, actions) = generate_possible_actions(&self.state);
        proof {
            let stack = self.state@.move_generation_stack;
            if stack.len() > 0 {
                assert(stack[stack.len() - 1] == stack.last());
            }
            lemma_some_action_is_legal(self.state@);
        }
        assert(actions.len() == actions_view(actions@).len());
        let action = if actions.len() == 1 {
            let only = actions[0].clone();
            assert(actions_view(actions@)[0] == only@);
            only
        } else {
            let answer = self.players[actor].decision_fn(&mut self.rng, &self.state, &actions);
            settle_choice(&actions, answer)
        };
        proof {
            let k = choose|k: int|
                0 <= k < actions_view(actions@).len() && actions_view(actions@)[k] == action@;
            assert(action@.actor == actor);
        }
        if let Some(handler) = &mut self.event_handler {
            handler.on_action(actor, &actions, &action);
        }
        apply_action(&mut self.rng, &mut self.state, &action);
        action
    }

    /// Takes the observer back from the game, which from then on reports
    /// to nobody: what comes back is the observer that the game had, or
    /// nothing if it had none. The state of the game and its seed stay as
    /// they are.
    pub fn take_event_handler(&mut self) -> (handler: Option<Box<dyn SimulationEventHandler>>)
        requires
            old(self).wf(),
        ensures
            handler == old(self).observer(),
            final(self).observer().is_none(),
            final(self).wf(),
            final(self).state_view() == old(self).state_view(),
            final(self).seed_value() == old(self).seed_value(),
    {
        self.event_handler.take()
    }

    /// The seed that the game's random source was started from.
    pub fn get_seed(&self) -> (seed: u64)
        ensures
            seed == self.seed_value(),
    {
        self.seed
    }

    /// A copy of the state of the game, independent of the game.
    pub fn get_state_clone(&self) -> (state: State)
        ensures
            state@ == self.state_view(),
    {
        self.state.clone()
    }

    /// Whether the game is over.
    pub fn is_game_over(&self) -> (over: bool)
        ensures
            over == self.state_view().is_game_over(),
    {
        self.state.is_game_over()
    }

    /// Applies an action to the game, whether or not it is legal.
    pub fn apply_action(&mut self, action: &Action)
        requires
            old(self).wf(),
            action.actor < 2,
        ensures
            final(self).wf(),
            final(self).observer() == old(self).observer(),
            exists|pick: usize|
                is_valid_pick(old(self).state_view(), pick) && final(self).state_view()
                    == #[trigger] step(old(self).state_view(), action@, pick),
    {
        apply_action(&mut self.rng, &mut self.state, action);
    }

    /// Replaces the state of the game.
    pub fn set_state(&mut self, state: State)
        requires
            old(self).wf(),
            state@.wf(),
        ensures
            final(self).wf(),
            final(self).state_view() == state@,
            final(self).observer() == old(self).observer(),
    {
        self.state = state;
    }
}

} // verus!
