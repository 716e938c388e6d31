pub mod arena;
pub mod player;
pub mod ball;
pub mod score;
pub mod game;
pub mod laws;
