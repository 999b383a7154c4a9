//! A rules engine for a two-player, deck-based card game: the mutable game
//! state, the enumeration of legal moves, the resolution of chosen moves, and
//! the registry of card effects that the engine knows how to carry out.
//!
//! Every function carries a contract over the mathematical view of the data
//! it touches, and every contract is proved. The one exception is the random
//! source: what it does is stated in [`rng`] and taken on trust.

pub mod text;
pub mod models;
pub mod card_ids;
pub mod attack_ids;
pub mod ability_ids;
pub mod tool_ids;
pub mod effects;
pub mod actions;
pub mod state;
pub mod hooks;
pub mod slot_rules;
pub mod card_logic;
pub mod move_generation;
pub mod card_validation;
pub mod mutations;
pub mod rng;
pub mod setup;
pub mod players;
pub mod game;

pub use ability_ids::AbilityId;
pub use actions::apply_action;
pub use attack_ids::AttackId;
pub use card_ids::CardId;
pub use game::Game;
pub use move_generation::generate_possible_actions;
pub use move_generation::generate_possible_trainer_actions;
pub use state::State;
pub use tool_ids::ToolId;
