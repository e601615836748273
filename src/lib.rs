//! Simulation core of a grid-based snake game: the arena, the snake, the food,
//! the score and the per-tick rules that evolve them.

pub mod geometry;
pub mod timer;
pub mod snake;
pub mod food;
pub mod round;
