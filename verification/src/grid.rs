//! Grid coordinates.

use vstd::prelude::*;
use crate::direction::Direction;

verus! {

/// A grid cell as mathematics sees it: a pair of unbounded integers. It
/// also serves as a vector between two cells.
pub struct Cell {
    pub x: int,
    pub y: int,
}

impl Cell {
    /// The neighbouring cell one unit away in heading `d`.
    pub open spec fn step(self, d: Direction) -> Cell {
        Cell { x: self.x + d.dx(), y: self.y + d.dy() }
    }

    /// This cell moved by the vector `by`.
    pub open spec fn shifted(self, by: Cell) -> Cell {
        Cell { x: self.x + by.x, y: self.y + by.y }
    }

    /// Whether both coordinates can be held by a `Position`.
    pub open spec fn fits(self) -> bool {
        &&& i32::MIN <= self.x <= i32::MAX
        &&& i32::MIN <= self.y <= i32::MAX
    }
}

/// A grid cell as the program holds it.
#[derive(Clone, Copy, Debug, PartialEq, Eq, Structural)]
pub struct Position {
    pub x: i32,
    pub y: i32,
}

impl View for Position {
    type V = Cell;

    open spec fn view(&self) -> Cell {
        Cell { x: self.x as int, y: self.y as int }
    }
}

/// The models of a run of positions, in the same order.
pub open spec fn cells_view(cells: Seq<Position>) -> Seq<Cell> {
    cells.map_values(|p: Position| p@)
}

} // verus!
