pub mod bidding;
pub mod game;
pub mod player;
