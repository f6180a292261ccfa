//! A Skat card game engine: cards, the rules of suit, grand and null games,
//! tricks, the state of a running game, simple bots, and dealing.

pub mod bot;
pub mod card;
pub mod game;
pub mod hand;
pub mod rank;
pub mod rules;
pub mod state;
pub mod suit;
pub mod trick;
pub mod ui;
pub mod utils;

pub use card::{Card, deck};
