//! A tick-driven snake on a bounded grid: movement, collision, eating,
//! growth and food placement as verified state transitions.

pub mod grid;
pub mod input;
pub mod snake;
pub mod food;
pub mod game;
