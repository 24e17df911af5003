use vstd::prelude::*;
use crate::arith::floor_div;
use crate::grid::{Cell, Maze, CELL_SPAN};

verus! {

/// A position in the plane, in sub-units.
#[derive(Clone, Copy, Debug, PartialEq, Eq, Structural)]
pub struct Point {
    pub x: i64,
    pub y: i64,
}

/// The index of the cell that holds coordinate `v`.
pub open spec fn cell_index(v: int) -> int {
    v / (CELL_SPAN as int)
}

/// A position is blocked when its cell is a wall or lies outside the grid.
pub open spec fn blocked(m: Maze, x: int, y: int) -> bool {
    m.cell_spec(cell_index(x), cell_index(y)) == Cell::Wall
}

/// The index of the cell that holds coordinate `v`.
pub fn cell_of(v: i64) -> (r: i64)
    ensures
        r as int == cell_index(v as int),
{
    floor_div(v, CELL_SPAN)
}

/// Whether the position `(x, y)` lies in a wall or outside the grid.
pub fn check_collision(x: i64, y: i64, maze: &Maze) -> (r: bool)
    requires
        maze.wf(),
    ensures
        r == blocked(*maze, x as int, y as int),
{
    let c = maze.cell_at(cell_of(x), cell_of(y));
    c == Cell::Wall
}

} // verus!
