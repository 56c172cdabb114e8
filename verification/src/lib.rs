pub mod card;
pub mod errors;
pub mod fetch;
pub mod json;
pub mod persist;
pub mod rarity;
pub mod report;
pub mod setcode;
pub mod text;

pub use card::Card;
pub use errors::PipelineError;
pub use rarity::Rarity;
