pub mod api;
pub mod board;
pub mod card_metadata;
pub mod cards;
pub mod groups;
pub mod role;
pub mod users;
pub mod utils;
