//! The data model: card definitions and cards in play.

pub mod card;

pub use card::Ability;
pub use card::AbilityView;
pub use card::Attack;
pub use card::AttackView;
pub use card::Card;
pub use card::CardView;
pub use card::EnergyType;
pub use card::PokemonCard;
pub use card::PokemonCardView;
pub use card::TrainerCard;
pub use card::TrainerCardView;
pub use card::TrainerType;

pub mod played_card;

pub use played_card::PlayedCard;
pub use played_card::PlayedCardView;
pub use played_card::has_serperior_jungle_totem;
