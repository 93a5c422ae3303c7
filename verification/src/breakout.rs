//! Breakout: scene and game states, the main menu, bar input, the arena and
//! the brick wall, the ball's speed, collisions, the system schedule and
//! the texts over the game.
pub mod arena;
pub mod ball;
pub mod brick;
pub mod collision;
pub mod input;
pub mod main_menu;
pub mod schedule;
pub mod state;
pub mod ui;
