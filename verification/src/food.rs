//! The food: one grid cell, which nothing in the game moves.

use vstd::prelude::*;
use crate::grid::{Cell, Position};
use crate::render::Square;

verus! {

/// A piece of food lying in a grid cell.
#[derive(Clone, Copy, Debug, PartialEq, Eq, Structural)]
pub struct Food {
    pub pos: Position,
}

impl View for Food {
    type V = Cell;

    open spec fn view(&self) -> Cell {
        self.pos@
    }
}

impl Food {
    /// The square to fill for this food: half a cell wide, in the middle
    /// of its cell.
    pub fn render(&self) -> (square: Square)
        ensures
            square@ == self@.food_square(),
    {
        self.pos.food_square()
    }
}

} // verus!
