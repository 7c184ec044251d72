//! The board endpoints of the service.
pub mod board;
pub mod card_metadata;
pub mod cards;
pub mod gate;
pub mod groups;
pub mod users;
pub mod utils;
