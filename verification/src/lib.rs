//! A snake game on a fixed grid: the game state and its update rules.

pub mod direction;
pub mod grid;
pub mod state;
pub mod game;
pub mod laws;
pub mod clock;
pub mod frame;
pub mod render;
