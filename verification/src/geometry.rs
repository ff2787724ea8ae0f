//! The integer lattice the game is played on: cells, the four movement
//! directions and their unit deltas, and the rectangular playable region.

use vstd::prelude::*;

verus! {

/// A cell of the integer lattice.
#[derive(Clone, Copy, PartialEq, Eq, Structural, Debug)]
pub struct Position {
    pub x: i32,
    pub y: i32,
}

/// The four axis directions a snake can move in and a tower can fire along.
/// There is no diagonal motion.
#[derive(Clone, Copy, PartialEq, Eq, Structural, Debug)]
pub enum Direction {
    Up,
    Down,
    Left,
    Right,
}

/// Playable bounds. A position counts as inside only strictly between all
/// four bounds; the bounds themselves are wall cells.
#[derive(Clone, Copy, PartialEq, Eq, Structural, Debug)]
pub struct Region {
    pub top: i32,
    pub bottom: i32,
    pub left: i32,
    pub right: i32,
}

/// Horizontal component of the unit delta of a direction.
pub open spec fn delta_x(d: Direction) -> int {
    match d {
        Direction::Up => 0,
        Direction::Down => 0,
        Direction::Left => -1,
        Direction::Right => 1,
    }
}

/// Vertical component of the unit delta of a direction. `Up` increases `y`.
pub open spec fn delta_y(d: Direction) -> int {
    match d {
        Direction::Up => 1,
        Direction::Down => -1,
        Direction::Left => 0,
        Direction::Right => 0,
    }
}

impl Direction {
    /// The unit delta of this direction as a pair `(dx, dy)`.
    pub fn offset(self) -> (r: (i32, i32))
        ensures
            r.0 == delta_x(self),
            r.1 == delta_y(self),
    {
        match self {
            Direction::Up => (0, 1),
            Direction::Down => (0, -1),
            Direction::Left => (-1, 0),
            Direction::Right => (1, 0),
        }
    }
}

impl Position {
    /// Whether this cell has the given mathematical coordinates.
    pub open spec fn at(self, x: int, y: int) -> bool {
        self.x == x && self.y == y
    }

    /// The neighbouring cell one step in direction `d`.
    pub fn step(self, d: Direction) -> (r: Position)
        requires
            i32::MIN <= self.x + delta_x(d) <= i32::MAX,
            i32::MIN <= self.y + delta_y(d) <= i32::MAX,
        ensures
            r.x == self.x + delta_x(d),
            r.y == self.y + delta_y(d),
    {
        let (dx, dy) = d.offset();
        Position { x: self.x + dx, y: self.y + dy }
    }
}

impl Region {
    /// Whether the coordinates lie strictly inside the region.
    pub open spec fn inside(self, x: int, y: int) -> bool {
        self.left < x < self.right && self.top < y < self.bottom
    }

    /// Whether the cell lies strictly inside the region.
    pub fn contains(&self, p: Position) -> (r: bool)
        ensures
            r == self.inside(p.x as int, p.y as int),
    {
        p.x > self.left && p.x < self.right && p.y > self.top && p.y < self.bottom
    }
}

/// Whether some cell of the sequence has the given coordinates. All
/// collections of cells (blocks, goals, the snake's tail) are read through
/// this membership test alone, so duplicates and order never matter to it.
pub open spec fn occupies(cells: Seq<Position>, x: int, y: int) -> bool {
    exists|i: int| 0 <= i < cells.len() && cells[i].at(x, y)
}

/// Whether the vector holds the cell `p`.
pub fn find_pos(cells: &Vec<Position>, p: Position) -> (r: bool)
    ensures
        r == occupies(cells@, p.x as int, p.y as int),
{
    let mut i: usize = 0;
    while i < cells.len()
        invariant
            0 <= i <= cells@.len(),
            forall|j: int| 0 <= j < i ==> !cells@[j].at(p.x as int, p.y as int),
        decreases cells@.len() - i,
    {
        if cells[i] == p {
            assert(cells@[i as int].at(p.x as int, p.y as int));
            return true;
        }
        i = i + 1;
    }
    false
}

} // verus!
