//! A minimal Snake game core: a snake that glides one grid cell per tick,
//! a steering filter that refuses reversals, and the mapping from grid
//! cells to the squares that a drawing surface is asked to fill.
//!
//! The game has no walls, no collisions, no growth and no score: the snake
//! may leave the visible grid and cross itself, and the food stays where
//! it is.
//!
//! Every executable function carries a contract over a mathematical model
//! of its data (`Cell`, `SnakeView`, `PixelSquare`, `GameView`), and Verus
//! proves the body against it. What holds across several calls is stated
//! and proved as `lemma_` functions beside the model.

pub mod direction;
pub mod grid;
pub mod render;
pub mod snake;
pub mod food;
pub mod game;
