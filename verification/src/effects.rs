//! Timed effects: modifiers that sit on one creature in play for a number of
//! turns.

use vstd::prelude::*;

use crate::attack_ids::AttackId;

verus! {

/// A modifier on a creature in play.
#[derive(Clone, Copy, Debug, PartialEq, Eq, Hash, Structural)]
pub enum CardEffect {
    /// The creature cannot retreat.
    NoRetreat,
    /// The creature cannot attack at all.
    CannotAttack,
    /// The creature cannot use one particular attack.
    CannotUseAttack(AttackId),
}

} // verus!
