//! The moves of the game.

use vstd::prelude::*;

use crate::models::card::Card;
use crate::models::card::CardView;
use crate::models::card::EnergyType;
use crate::models::card::TrainerCard;
use crate::models::card::TrainerCardView;
use crate::tool_ids::ToolId;

verus! {

/// A move, without the player who makes it.
#[derive(Debug, PartialEq, Eq, Hash)]
pub enum SimpleAction {
    /// Draw the top card of the deck.
    DrawCard,
    /// Put a basic creature from the hand into a slot.
    Place(Card, usize),
    /// Attach energy to the creature in a slot.
    Attach { in_play_idx: usize, energy: EnergyType, count: u8, is_turn_energy: bool },
    /// Attach a tool to the creature in a slot.
    AttachTool { in_play_idx: usize, tool_id: ToolId },
    /// Heal the creature in a slot, optionally curing its status conditions.
    Heal { in_play_idx: usize, amount: u32, cure_status: bool },
    /// Play a trainer card from the hand.
    Play { trainer_card: TrainerCard },
    /// Use the ability of the creature in a slot.
    UseAbility(usize),
    /// Attack with the active creature's attack at the given position.
    Attack(usize),
    /// Retreat the active creature, swapping it with a benched one.
    Retreat(usize),
    /// End the turn.
    EndTurn,
    /// Move the creature in a bench slot to the active slot.
    Activate { in_play_idx: usize },
}

/// A move as contracts see it.
pub enum SimpleActionView {
    DrawCard,
    Place(CardView, usize),
    Attach { in_play_idx: usize, energy: EnergyType, count: u8, is_turn_energy: bool },
    AttachTool { in_play_idx: usize, tool_id: ToolId },
    Heal { in_play_idx: usize, amount: u32, cure_status: bool },
    Play { trainer_card: TrainerCardView },
    UseAbility(usize),
    Attack(usize),
    Retreat(usize),
    EndTurn,
    Activate { in_play_idx: usize },
}

impl View for SimpleAction {
    type V = SimpleActionView;

    open spec fn view(&self) -> SimpleActionView {
        match self {
            SimpleAction::DrawCard => SimpleActionView::DrawCard,
            SimpleAction::Place(card, idx) => SimpleActionView::Place(card@, *idx),
            SimpleAction::Attach { in_play_idx, energy, count, is_turn_energy } => {
                SimpleActionView::Attach {
                    in_play_idx: *in_play_idx,
                    energy: *energy,
                    count: *count,
                    is_turn_energy: *is_turn_energy,
                }
            },
            SimpleAction::AttachTool { in_play_idx, tool_id } => SimpleActionView::AttachTool {
                in_play_idx: *in_play_idx,
                tool_id: *tool_id,
            },
            SimpleAction::Heal { in_play_idx, amount, cure_status } => SimpleActionView::Heal {
                in_play_idx: *in_play_idx,
                amount: *amount,
                cure_status: *cure_status,
            },
            SimpleAction::Play { trainer_card } => SimpleActionView::Play {
                trainer_card: trainer_card@,
            },
            SimpleAction::UseAbility(idx) => SimpleActionView::UseAbility(*idx),
            SimpleAction::Attack(idx) => SimpleActionView::Attack(*idx),
            SimpleAction::Retreat(idx) => SimpleActionView::Retreat(*idx),
            SimpleAction::EndTurn => SimpleActionView::EndTurn,
            SimpleAction::Activate { in_play_idx } => SimpleActionView::Activate {
                in_play_idx: *in_play_idx,
            },
        }
    }
}

impl Clone for SimpleAction {
    fn clone(&self) -> (r: Self)
        ensures
            r@ == self@,
    {
        match self {
            SimpleAction::DrawCard => SimpleAction::DrawCard,
            SimpleAction::Place(card, idx) => SimpleAction::Place(card.clone(), *idx),
            SimpleAction::Attach { in_play_idx, energy, count, is_turn_energy } => {
                SimpleAction::Attach {
                    in_play_idx: *in_play_idx,
                    energy: *energy,
                    count: *count,
                    is_turn_energy: *is_turn_energy,
                }
            },
            SimpleAction::AttachTool { in_play_idx, tool_id } => SimpleAction::AttachTool {
                in_play_idx: *in_play_idx,
                tool_id: *tool_id,
            },
            SimpleAction::Heal { in_play_idx, amount, cure_status } => SimpleAction::Heal {
                in_play_idx: *in_play_idx,
                amount: *amount,
                cure_status: *cure_status,
            },
            SimpleAction::Play { trainer_card } => SimpleAction::Play {
                trainer_card: trainer_card.clone(),
            },
            SimpleAction::UseAbility(idx) => SimpleAction::UseAbility(*idx),
            SimpleAction::Attack(idx) => SimpleAction::Attack(*idx),
            SimpleAction::Retreat(idx) => SimpleAction::Retreat(*idx),
            SimpleAction::EndTurn => SimpleAction::EndTurn,
            SimpleAction::Activate { in_play_idx } => SimpleAction::Activate {
                in_play_idx: *in_play_idx,
            },
        }
    }
}

impl SimpleAction {
    /// Whether two moves have the same content.
    pub fn is_same_as(&self, other: &SimpleAction) -> (same: bool)
        ensures
            same == (self@ == other@),
    {
        match (self, other) {
            (SimpleAction::DrawCard, SimpleAction::DrawCard) => true,
            (SimpleAction::Place(card_a, idx_a), SimpleAction::Place(card_b, idx_b)) => {
                card_a.is_same_as(card_b) && *idx_a == *idx_b
            },
            (
                SimpleAction::Attach {
                    in_play_idx: idx_a,
                    energy: energy_a,
                    count: count_a,
                    is_turn_energy: turn_a,
                },
                SimpleAction::Attach {
                    in_play_idx: idx_b,
                    energy: energy_b,
                    count: count_b,
                    is_turn_energy: turn_b,
                },
            ) => *idx_a == *idx_b && *energy_a == *energy_b && *count_a == *count_b && *turn_a
                == *turn_b,
            (
                SimpleAction::AttachTool { in_play_idx: idx_a, tool_id: tool_a },
                SimpleAction::AttachTool { in_play_idx: idx_b, tool_id: tool_b },
            ) => *idx_a == *idx_b && *tool_a == *tool_b,
            (
                SimpleAction::Heal { in_play_idx: idx_a, amount: amount_a, cure_status: cure_a },
                SimpleAction::Heal { in_play_idx: idx_b, amount: amount_b, cure_status: cure_b },
            ) => *idx_a == *idx_b && *amount_a == *amount_b && *cure_a == *cure_b,
            (
                SimpleAction::Play { trainer_card: card_a },
                SimpleAction::Play { trainer_card: card_b },
            ) => card_a.is_same_as(card_b),
            (SimpleAction::UseAbility(idx_a), SimpleAction::UseAbility(idx_b)) => *idx_a == *idx_b,
            (SimpleAction::Attack(idx_a), SimpleAction::Attack(idx_b)) => *idx_a == *idx_b,
            (SimpleAction::Retreat(idx_a), SimpleAction::Retreat(idx_b)) => *idx_a == *idx_b,
            (SimpleAction::EndTurn, SimpleAction::EndTurn) => true,
            (
                SimpleAction::Activate { in_play_idx: idx_a },
                SimpleAction::Activate { in_play_idx: idx_b },
            ) => *idx_a == *idx_b,
            _ => false,
        }
    }
}

/// View of a list of moves.
pub open spec fn simple_actions_view(v: Seq<SimpleAction>) -> Seq<SimpleActionView> {
    v.map_values(|a: SimpleAction| a@)
}

/// Copies a list of moves.
pub fn clone_simple_actions(v: &Vec<SimpleAction>) -> (r: Vec<SimpleAction>)
    ensures
        simple_actions_view(r@) == simple_actions_view(v@),
{
    let mut out: Vec<SimpleAction> = Vec::new();
    let mut i: usize = 0;
    while i < v.len()
        invariant
            i <= v.len(),
            out@.len() == i,
            forall|j: int| 0 <= j < i ==> out@[j]@ == v@[j]@,
        decreases v.len() - i,
    {
        out.push(v[i].clone());
        i += 1;
    }
    assert(simple_actions_view(out@) =~= simple_actions_view(v@));
    out
}

/// A move together with the player who makes it.
#[derive(Debug, PartialEq, Eq, Hash)]
pub struct Action {
    pub actor: usize,
    pub action: SimpleAction,
    /// Whether the move answers a pending decision, as opposed to being a
    /// fresh choice of the player whose turn it is.
    pub is_stack: bool,
}

/// An action as contracts see it.
pub struct ActionView {
    pub actor: usize,
    pub action: SimpleActionView,
    pub is_stack: bool,
}

impl View for Action {
    type V = ActionView;

    open spec fn view(&self) -> ActionView {
        ActionView { actor: self.actor, action: self.action@, is_stack: self.is_stack }
    }
}

impl Clone for Action {
    fn clone(&self) -> (r: Self)
        ensures
            r@ == self@,
    {
        Action { actor: self.actor, action: self.action.clone(), is_stack: self.is_stack }
    }
}

impl Action {
    /// Whether two actions have the same content.
    pub fn is_same_as(&self, other: &Action) -> (same: bool)
        ensures
            same == (self@ == other@),
    {
        self.actor == other.actor && self.is_stack == other.is_stack && self.action.is_same_as(
            &other.action,
        )
    }
}

/// View of a list of actions.
pub open spec fn actions_view(v: Seq<Action>) -> Seq<ActionView> {
    v.map_values(|a: Action| a@)
}

} // verus!
