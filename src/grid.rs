use vstd::prelude::*;

verus! {

/// Number of columns of the board.
pub const GRID_WIDTH: u32 = 25;

/// Number of rows of the board.
pub const GRID_HEIGHT: u32 = 25;

/// A cell of the board; `y` grows upwards.
#[derive(Clone, Copy, Debug, PartialEq, Eq, Structural)]
pub struct Position {
    pub x: i32,
    pub y: i32,
}

/// A cell lies on the board.
pub open spec fn cell_in_bounds(p: Position) -> bool {
    0 <= p.x < GRID_WIDTH as int && 0 <= p.y < GRID_HEIGHT as int
}

/// Whether `p` lies on the board.
pub fn in_bounds(p: Position) -> (r: bool)
    ensures
        r == cell_in_bounds(p),
{
    0 <= p.x && p.x < GRID_WIDTH as i32 && 0 <= p.y && p.y < GRID_HEIGHT as i32
}

} // verus!
