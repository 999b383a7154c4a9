//! Actions: what a player can choose to do, and how a choice changes the
//! game.

pub mod abilities;
pub mod apply_action;
pub mod attack;
pub mod knockout;
pub mod moves;
pub mod trainers;
pub mod turn;
pub mod types;

pub use types::Action;
pub use types::ActionView;
pub use types::SimpleAction;
pub use types::SimpleActionView;
pub use apply_action::apply_action;
pub use apply_action::apply_action_with_pick;
