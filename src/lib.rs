//! Game logic of a grid snake: body movement, tile orientation, collision
//! rules and the menu / playing / dead state machine.

pub mod food;
pub mod game;
pub mod geometry;
pub mod orientation;
pub mod snake;
pub mod sprites;
