//! Move generation: which moves are legal in a state.

pub mod attacks;
pub mod generator;
pub mod move_generation_trainer;

pub use attacks::generate_attack_actions;
pub use generator::generate_possible_actions;
pub use move_generation_trainer::generate_possible_trainer_actions;
pub use move_generation_trainer::trainer_move_generation_implementation;
