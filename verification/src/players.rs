//! Players: whoever chooses among the legal actions.

use rand::rngs::StdRng;
use vstd::prelude::*;

use crate::actions::types::actions_view;
use crate::actions::types::Action;
use crate::actions::types::ActionView;
use crate::actions::types::SimpleAction;
use crate::state::Deck;
use crate::state::State;

verus! {

/// Whether an action is one of a list of actions.
pub open spec fn is_one_of(chosen: ActionView, actions: Seq<ActionView>) -> bool {
    exists|k: int| 0 <= k < actions.len() && actions[k] == chosen
}

/// A player: a deck, and a way to choose among the legal actions.
///
/// The game asks a player to choose only when there is more than one legal
/// action. Nothing is taken for granted about the answer: see
/// [`settle_choice`].
pub trait Player {
    /// The deck that the player brings to the game.
    fn get_deck(&self) -> Deck;

    /// Chooses one of the legal actions, of which there is at least one.
    /// The player may use the random source, and sees the state without
    /// changing it.
    fn decision_fn(&mut self, rng: &mut StdRng, state: &State, possible_actions: &Vec<Action>) -> (chosen:
        Action)
        requires
            possible_actions.len() > 0,
    ;
}

/// The action that the game takes when a player has answered: the answer
/// itself if it is one of the legal actions, and the first legal action
/// otherwise.
pub open spec fn settled(actions: Seq<ActionView>, answer: ActionView) -> ActionView {
    if is_one_of(answer, actions) {
        answer
    } else {
        actions[0]
    }
}

/// Whether a list of actions holds one with the content of a given
/// action.
pub fn holds_action(actions: &Vec<Action>, wanted: &Action) -> (found: bool)
    ensures
        found == is_one_of(wanted@, actions_view(actions@)),
{
    let ghost views = actions_view(actions@);
    let mut k: usize = 0;
    while k < actions.len()
        invariant
            k <= actions.len(),
            views == actions_view(actions@),
            forall|j: int| 0 <= j < k ==> views[j] != wanted@,
        decreases actions.len() - k,
    {
        assert(views[k as int] == actions@[k as int]@);
        if actions[k].is_same_as(wanted) {
            return true;
        }
        k += 1;
    }
    false
}

/// Settles what the game does with a player's answer: it takes the answer
/// if that is one of the legal actions, and the first legal action
/// otherwise. Either way the action taken is legal.
pub fn settle_choice(possible_actions: &Vec<Action>, answer: Action) -> (taken: Action)
    requires
        possible_actions.len() > 0,
    ensures
        taken@ == settled(actions_view(possible_actions@), answer@),
        is_one_of(taken@, actions_view(possible_actions@)),
{
    if holds_action(possible_actions, &answer) {
        answer
    } else {
        take_choice(possible_actions, 0)
    }
}

/// Whether an action ends the turn.
pub open spec fn ends_turn(action: ActionView) -> bool {
    action.action is EndTurn
}

/// Whether an action attaches energy to the active creature.
pub open spec fn feeds_active(action: ActionView) -> bool {
    action.action is Attach && action.action->Attach_in_play_idx == 0
}

/// Whether an action is an attack.
pub open spec fn attacks(action: ActionView) -> bool {
    action.action is Attack
}

/// What a choice by preference is: with `k` the position of the chosen
/// action, the action is the first that meets the preference, or, where
/// none does, simply the first.
pub open spec fn is_first_choice(
    actions: Seq<ActionView>,
    preferred: spec_fn(ActionView) -> bool,
    k: int,
) -> bool {
    &&& 0 <= k < actions.len()
    &&& forall|j: int| 0 <= j < k ==> !preferred(#[trigger] actions[j])
    &&& preferred(actions[k]) || (k == 0 && forall|j: int|
        0 <= j < actions.len() ==> !preferred(#[trigger] actions[j]))
}

/// A choice by preference is determined by the legal actions: there is
/// exactly one position that it can fall on. A player who chooses by
/// preference therefore answers the same whenever the legal actions are
/// the same.
pub proof fn lemma_first_choice_is_determined(
    actions: Seq<ActionView>,
    preferred: spec_fn(ActionView) -> bool,
    first: int,
    second: int,
)
    requires
        is_first_choice(actions, preferred, first),
        is_first_choice(actions, preferred, second),
    ensures
        first == second,
{
    if first < second {
        assert(!preferred(actions[first]));
        assert(first == 0);
        assert(!preferred(actions[second]));
    } else if second < first {
        assert(!preferred(actions[second]));
        assert(second == 0);
        assert(!preferred(actions[first]));
    }
}

/// The position of the first action that ends the turn, if there is one.
fn find_end_turn(actions: &Vec<Action>) -> (found: Option<usize>)
    ensures
        match found {
            Some(k) => k < actions.len() && ends_turn(actions@[k as int]@) && forall|j: int|
                0 <= j < k ==> !ends_turn(#[trigger] actions@[j]@),
            None => forall|j: int| 0 <= j < actions.len() ==> !ends_turn(#[trigger] actions@[j]@),
        },
{
    let mut k: usize = 0;
    while k < actions.len()
        invariant
            k <= actions.len(),
            forall|j: int| 0 <= j < k ==> !ends_turn(#[trigger] actions@[j]@),
        decreases actions.len() - k,
    {
        match &actions[k].action {
            SimpleAction::EndTurn => {
                return Some(k);
            },
            _ => {},
        }
        k += 1;
    }
    None
}

/// The position of the first action that attaches energy to the active
/// creature, if there is one.
fn find_feed_active(actions: &Vec<Action>) -> (found: Option<usize>)
    ensures
        match found {
            Some(k) => k < actions.len() && feeds_active(actions@[k as int]@) && forall|j: int|
                0 <= j < k ==> !feeds_active(#[trigger] actions@[j]@),
            None => forall|j: int| 0 <= j < actions.len() ==> !feeds_active(#[trigger] actions@[j]@),
        },
{
    let mut k: usize = 0;
    while k < actions.len()
        invariant
            k <= actions.len(),
            forall|j: int| 0 <= j < k ==> !feeds_active(#[trigger] actions@[j]@),
        decreases actions.len() - k,
    {
        match &actions[k].action {
            SimpleAction::Attach { in_play_idx, .. } => {
                if *in_play_idx == 0 {
                    return Some(k);
                }
            },
            _ => {},
        }
        k += 1;
    }
    None
}

/// The position of the first attack, if there is one.
fn find_attack(actions: &Vec<Action>) -> (found: Option<usize>)
    ensures
        match found {
            Some(k) => k < actions.len() && attacks(actions@[k as int]@) && forall|j: int|
                0 <= j < k ==> !attacks(#[trigger] actions@[j]@),
            None => forall|j: int| 0 <= j < actions.len() ==> !attacks(#[trigger] actions@[j]@),
        },
{
    let mut k: usize = 0;
    while k < actions.len()
        invariant
            k <= actions.len(),
            forall|j: int| 0 <= j < k ==> !attacks(#[trigger] actions@[j]@),
        decreases actions.len() - k,
    {
        match &actions[k].action {
            SimpleAction::Attack(_) => {
                return Some(k);
            },
            _ => {},
        }
        k += 1;
    }
    None
}

/// Copies the action at a position of a list.
fn take_choice(actions: &Vec<Action>, k: usize) -> (chosen: Action)
    requires
        k < actions.len(),
    ensures
        chosen@ == actions@[k as int]@,
        is_one_of(chosen@, actions_view(actions@)),
{
    let chosen = actions[k].clone();
    assert(actions_view(actions@)[k as int] == chosen@);
    chosen
}

/// A player who ends the turn whenever that is allowed, and otherwise
/// takes the first legal action.
pub struct EndTurnPlayer {
    pub deck: Deck,
}

impl EndTurnPlayer {
    /// The position of the action that this player chooses.
    pub fn preferred_index(possible_actions: &Vec<Action>) -> (k: usize)
        requires
            possible_actions.len() > 0,
        ensures
            is_first_choice(
                actions_view(possible_actions@),
                |a: ActionView| ends_turn(a),
                k as int,
            ),
    {
        match find_end_turn(possible_actions) {
            Some(k) => k,
            None => 0,
        }
    }
}

impl Player for EndTurnPlayer {
    fn get_deck(&self) -> (deck: Deck)
        ensures
            deck@ == self.deck@,
    {
        self.deck.clone()
    }

    fn decision_fn(&mut self, rng: &mut StdRng, state: &State, possible_actions: &Vec<Action>) -> (chosen:
        Action)
        ensures
            exists|k: int|
                is_first_choice(actions_view(possible_actions@), |a: ActionView| ends_turn(a), k)
                    && chosen@ == #[trigger] actions_view(possible_actions@)[k],
    {
        let k = EndTurnPlayer::preferred_index(possible_actions);
        let chosen = take_choice(possible_actions, k);
        assert(chosen@ == actions_view(possible_actions@)[k as int]);
        chosen
    }
}

/// A player who attaches energy to the active creature when that is
/// allowed, otherwise attacks, otherwise ends the turn, and otherwise
/// takes the first legal action.
pub struct AttachAttackPlayer {
    pub deck: Deck,
}

impl AttachAttackPlayer {
    /// The position of the action that this player chooses.
    pub fn preferred_index(possible_actions: &Vec<Action>) -> (k: usize)
        requires
            possible_actions.len() > 0,
        ensures
            k < possible_actions.len(),
            ({
                let actions = actions_view(possible_actions@);
                let any_feed = exists|j: int| 0 <= j < actions.len() && feeds_active(actions[j]);
                let any_attack = exists|j: int| 0 <= j < actions.len() && attacks(actions[j]);
                if any_feed {
                    is_first_choice(actions, |a: ActionView| feeds_active(a), k as int)
                } else if any_attack {
                    is_first_choice(actions, |a: ActionView| attacks(a), k as int)
                } else {
                    is_first_choice(actions, |a: ActionView| ends_turn(a), k as int)
                }
            }),
    {
        let ghost actions = actions_view(possible_actions@);
        assert(forall|j: int|
            0 <= j < actions.len() ==> #[trigger] actions[j] == possible_actions@[j]@);
        match find_feed_active(possible_actions) {
            Some(k) => {
                assert(feeds_active(actions[k as int]));
                return k;
            },
            None => {},
        }
        match find_attack(possible_actions) {
            Some(k) => {
                assert(attacks(actions[k as int]));
                return k;
            },
            None => {},
        }
        match find_end_turn(possible_actions) {
            Some(k) => k,
            None => 0,
        }
    }
}

impl Player for AttachAttackPlayer {
    fn get_deck(&self) -> (deck: Deck)
        ensures
            deck@ == self.deck@,
    {
        self.deck.clone()
    }

    fn decision_fn(&mut self, rng: &mut StdRng, state: &State, possible_actions: &Vec<Action>) -> (chosen:
        Action)
        ensures
            is_one_of(chosen@, actions_view(possible_actions@)),
    {
        let k = AttachAttackPlayer::preferred_index(possible_actions);
        take_choice(possible_actions, k)
    }
}

} // verus!
