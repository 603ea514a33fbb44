//! From grid cells to what a drawing surface is asked to do: squares in
//! pixel space, their colours, and the commands that carry them.

use vstd::prelude::*;
use crate::grid::{Cell, Position};

verus! {

/// Edge length, in pixels, of one grid cell and of one snake segment.
pub const CELL_SIZE: i64 = 20;

/// Edge length, in pixels, of the food square.
pub const FOOD_SIZE: i64 = 10;

/// Distance, in pixels, from a cell's corner to the food square inside it.
pub const FOOD_INSET: i64 = 5;

/// An axis-aligned square in pixel space, over unbounded integers:
/// top-left corner `(x, y)` and edge length `size`.
pub struct PixelSquare {
    pub x: int,
    pub y: int,
    pub size: int,
}

impl Cell {
    /// The square that a snake segment in this cell covers: the whole cell.
    pub open spec fn segment_square(self) -> PixelSquare {
        PixelSquare { x: self.x * CELL_SIZE, y: self.y * CELL_SIZE, size: CELL_SIZE as int }
    }

    /// The square that food in this cell covers: a smaller square in the
    /// middle of the cell.
    pub open spec fn food_square(self) -> PixelSquare {
        PixelSquare {
            x: self.x * CELL_SIZE + FOOD_INSET,
            y: self.y * CELL_SIZE + FOOD_INSET,
            size: FOOD_SIZE as int,
        }
    }
}

/// An axis-aligned square in pixel space as the program holds it:
/// top-left corner `(x, y)` and edge length `size`. Sixty-four bits hold
/// the square of every `Position`.
#[derive(Clone, Copy, Debug, PartialEq, Eq, Structural)]
pub struct Square {
    pub x: i64,
    pub y: i64,
    pub size: i64,
}

impl View for Square {
    type V = PixelSquare;

    open spec fn view(&self) -> PixelSquare {
        PixelSquare { x: self.x as int, y: self.y as int, size: self.size as int }
    }
}

/// The models of a run of squares, in the same order.
pub open spec fn squares_view(squares: Seq<Square>) -> Seq<PixelSquare> {
    squares.map_values(|q: Square| q@)
}

impl Position {
    /// The square that a snake segment at this position covers.
    pub fn segment_square(&self) -> (q: Square)
        ensures
            q@ == self@.segment_square(),
    {
        Square { x: self.x as i64 * CELL_SIZE, y: self.y as i64 * CELL_SIZE, size: CELL_SIZE }
    }

    /// The square that food at this position covers.
    pub fn food_square(&self) -> (q: Square)
        ensures
            q@ == self@.food_square(),
    {
        Square {
            x: self.x as i64 * CELL_SIZE + FOOD_INSET,
            y: self.y as i64 * CELL_SIZE + FOOD_INSET,
            size: FOOD_SIZE,
        }
    }
}

/// The colours the game paints with.
#[derive(Clone, Copy, Debug, PartialEq, Eq, Structural)]
pub enum Color {
    /// The background.
    Purple,
    /// The snake and the food.
    Red,
}

/// One request to the drawing surface.
#[derive(Clone, Copy, Debug, PartialEq, Eq, Structural)]
pub enum DrawCommand {
    /// Clear the whole surface to a colour.
    Clear(Color),
    /// Fill a square with a colour.
    Fill(Color, Square),
}

/// One request to the drawing surface, over unbounded integers.
pub enum DrawCommandView {
    Clear(Color),
    Fill(Color, PixelSquare),
}

impl View for DrawCommand {
    type V = DrawCommandView;

    open spec fn view(&self) -> DrawCommandView {
        match *self {
            DrawCommand::Clear(color) => DrawCommandView::Clear(color),
            DrawCommand::Fill(color, square) => DrawCommandView::Fill(color, square@),
        }
    }
}

/// The models of a run of commands, in the same order.
pub open spec fn commands_view(commands: Seq<DrawCommand>) -> Seq<DrawCommandView> {
    commands.map_values(|c: DrawCommand| c@)
}

/// The commands that fill each of `squares` with `color`, in the same order.
pub open spec fn fills(color: Color, squares: Seq<PixelSquare>) -> Seq<DrawCommandView> {
    squares.map_values(|q: PixelSquare| DrawCommandView::Fill(color, q))
}

} // verus!
