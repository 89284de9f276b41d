//! Grid coordinates and movement: cells, headings, and one-step movement
//! with toroidal wraparound at the grid edges.

use vstd::prelude::*;

verus! {

/// The direction of the entity's next movement.
#[derive(Debug, PartialEq, Eq, Structural)]
pub enum Direction {
    Up,
    Down,
    Left,
    Right,
}

/// The direction that undoes one step in direction `d`.
pub open spec fn opposite_dir(d: Direction) -> Direction {
    match d {
        Direction::Up => Direction::Down,
        Direction::Down => Direction::Up,
        Direction::Left => Direction::Right,
        Direction::Right => Direction::Left,
    }
}

impl Direction {
    pub fn opposite(&self) -> (r: Direction)
        ensures
            r == opposite_dir(*self),
    {
        match *self {
            Direction::Up => Direction::Down,
            Direction::Down => Direction::Up,
            Direction::Left => Direction::Right,
            Direction::Right => Direction::Left,
        }
    }
}

/// A discrete grid coordinate. Both components lie in `[0, grid_size)` for
/// every cell a well-formed game holds.
#[derive(Debug, PartialEq, Eq, Structural)]
pub struct Location {
    pub x: usize,
    pub y: usize,
}

/// Whether `loc` lies on a square grid of side `grid_size`.
pub open spec fn in_bounds(loc: Location, grid_size: usize) -> bool {
    loc.x < grid_size && loc.y < grid_size
}

/// One step up (decreasing `y`), wrapping from row 0 to the last row.
pub open spec fn up_of(loc: Location, grid_size: usize) -> Location {
    Location {
        x: loc.x,
        y: if loc.y == 0 {
            (grid_size - 1) as usize
        } else {
            (loc.y - 1) as usize
        },
    }
}

/// One step down (increasing `y`), wrapping from the last row to row 0.
pub open spec fn down_of(loc: Location, grid_size: usize) -> Location {
    Location {
        x: loc.x,
        y: if loc.y >= grid_size - 1 {
            0usize
        } else {
            (loc.y + 1) as usize
        },
    }
}

/// One step left (decreasing `x`), wrapping from column 0 to the last column.
pub open spec fn left_of(loc: Location, grid_size: usize) -> Location {
    Location {
        x: if loc.x == 0 {
            (grid_size - 1) as usize
        } else {
            (loc.x - 1) as usize
        },
        y: loc.y,
    }
}

/// One step right (increasing `x`), wrapping from the last column to column 0.
pub open spec fn right_of(loc: Location, grid_size: usize) -> Location {
    Location {
        x: if loc.x >= grid_size - 1 {
            0usize
        } else {
            (loc.x + 1) as usize
        },
        y: loc.y,
    }
}

/// One step from `loc` in direction `dir` on a toroidal grid of side
/// `grid_size`.
pub open spec fn moved(loc: Location, dir: Direction, grid_size: usize) -> Location {
    match dir {
        Direction::Up => up_of(loc, grid_size),
        Direction::Down => down_of(loc, grid_size),
        Direction::Left => left_of(loc, grid_size),
        Direction::Right => right_of(loc, grid_size),
    }
}

impl Location {
    pub fn new(x: usize, y: usize) -> (r: Location)
        ensures
            r == (Location { x, y }),
    {
        Location { x, y }
    }

    pub fn to_up(&self, grid_size: usize) -> (r: Location)
        requires
            grid_size >= 1,
        ensures
            r == up_of(*self, grid_size),
    {
        let new_y: usize = if self.y == 0 { grid_size - 1 } else { self.y - 1 };
        Location::new(self.x, new_y)
    }

    pub fn to_down(&self, grid_size: usize) -> (r: Location)
        requires
            grid_size >= 1,
        ensures
            r == down_of(*self, grid_size),
    {
        let new_y: usize = if self.y >= grid_size - 1 { 0 } else { self.y + 1 };
        Location::new(self.x, new_y)
    }

    pub fn to_left(&self, grid_size: usize) -> (r: Location)
        requires
            grid_size >= 1,
        ensures
            r == left_of(*self, grid_size),
    {
        let new_x: usize = if self.x == 0 { grid_size - 1 } else { self.x - 1 };
        Location::new(new_x, self.y)
    }

    pub fn to_right(&self, grid_size: usize) -> (r: Location)
        requires
            grid_size >= 1,
        ensures
            r == right_of(*self, grid_size),
    {
        let new_x: usize = if self.x >= grid_size - 1 { 0 } else { self.x + 1 };
        Location::new(new_x, self.y)
    }
}

/// The cell one step from `current_loc` in `move_dir`, wrapping at the grid
/// edges in both axes.
pub fn get_next_loc(current_loc: &Location, move_dir: &Direction, grid_size: usize) -> (r:
    Location)
    requires
        grid_size >= 1,
    ensures
        r == moved(*current_loc, *move_dir, grid_size),
{
    match *move_dir {
        Direction::Up => current_loc.to_up(grid_size),
        Direction::Down => current_loc.to_down(grid_size),
        Direction::Left => current_loc.to_left(grid_size),
        Direction::Right => current_loc.to_right(grid_size),
    }
}

/// A step stays on the grid: moving an in-bounds cell in any direction
/// yields an in-bounds cell.
pub proof fn lemma_moved_in_bounds(loc: Location, dir: Direction, grid_size: usize)
    requires
        grid_size >= 1,
        in_bounds(loc, grid_size),
    ensures
        in_bounds(moved(loc, dir, grid_size), grid_size),
{
}

/// Moving one step in a direction and then one step in its opposite returns
/// to the starting cell, wraparound included.
pub proof fn lemma_move_round_trip(loc: Location, dir: Direction, grid_size: usize)
    requires
        grid_size >= 1,
        in_bounds(loc, grid_size),
    ensures
        moved(moved(loc, dir, grid_size), opposite_dir(dir), grid_size) == loc,
{
}

/// Wraparound at each edge: the last column moves Right to column 0, column 0
/// moves Left to the last column, and likewise for rows with Down and Up.
pub proof fn lemma_wraparound(loc: Location, grid_size: usize)
    requires
        grid_size >= 1,
        in_bounds(loc, grid_size),
    ensures
        loc.x == grid_size - 1 ==> moved(loc, Direction::Right, grid_size).x == 0,
        loc.x == 0 ==> moved(loc, Direction::Left, grid_size).x == grid_size - 1,
        loc.y == grid_size - 1 ==> moved(loc, Direction::Down, grid_size).y == 0,
        loc.y == 0 ==> moved(loc, Direction::Up, grid_size).y == grid_size - 1,
{
}

} // verus!
