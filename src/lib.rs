//! Core state machine of a snake game on a toroidal grid: coordinates and
//! directions, the snake and its growth and overlap rules, food placement,
//! and the fixed-tick game loop.

pub mod grid;
pub mod snake;
pub mod food;
pub mod game;
