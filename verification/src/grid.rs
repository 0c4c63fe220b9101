use vstd::prelude::*;

verus! {

/// One of the four grid directions. `Up` is +y, `Right` is +x.
#[derive(Debug, Clone, Copy, PartialEq, Eq, Structural)]
pub enum Direction {
    Up,
    Down,
    Left,
    Right,
}

impl Direction {
    /// Column change of one step in this direction.
    pub open spec fn dx(self) -> int {
        match self {
            Direction::Left => -1,
            Direction::Right => 1,
            _ => 0,
        }
    }

    /// Row change of one step in this direction.
    pub open spec fn dy(self) -> int {
        match self {
            Direction::Up => 1,
            Direction::Down => -1,
            _ => 0,
        }
    }

    /// The `(dx, dy)` tile offset of one step in this direction.
    pub fn offset(self) -> (r: (i32, i32))
        ensures
            r.0 == self.dx(),
            r.1 == self.dy(),
    {
        match self {
            Direction::Up => (0, 1),
            Direction::Down => (0, -1),
            Direction::Left => (-1, 0),
            Direction::Right => (1, 0),
        }
    }
}

/// Authoritative logical tile position of an entity (player, NPC, ...).
#[derive(Debug, Clone, Copy, PartialEq, Eq, Structural)]
pub struct GridPos {
    pub x: i32,
    pub y: i32,
}

impl GridPos {
    pub fn new(x: i32, y: i32) -> (r: GridPos)
        ensures
            r.x == x,
            r.y == y,
    {
        GridPos { x, y }
    }

    /// One step in `dir` stays inside the `i32` coordinate range.
    pub open spec fn can_step(self, dir: Direction) -> bool {
        &&& i32::MIN <= self.x + dir.dx() <= i32::MAX
        &&& i32::MIN <= self.y + dir.dy() <= i32::MAX
    }

    /// One step in every direction stays inside the `i32` coordinate range.
    pub open spec fn can_step_all(self) -> bool {
        &&& i32::MIN < self.x < i32::MAX
        &&& i32::MIN < self.y < i32::MAX
    }

    /// The neighbouring tile in direction `dir`.
    pub open spec fn step(self, dir: Direction) -> GridPos {
        GridPos { x: (self.x + dir.dx()) as i32, y: (self.y + dir.dy()) as i32 }
    }

    /// The neighbouring tile in direction `dir`.
    pub fn stepped(self, dir: Direction) -> (r: GridPos)
        requires
            self.can_step(dir),
        ensures
            r == self.step(dir),
            r.x == self.x + dir.dx(),
            r.y == self.y + dir.dy(),
    {
        let (dx, dy) = dir.offset();
        GridPos { x: self.x + dx, y: self.y + dy }
    }

    /// The two tiles share an edge.
    pub open spec fn adjacent(self, other: GridPos) -> bool {
        let ddx = self.x - other.x;
        let ddy = self.y - other.y;
        (ddx == 0 && (ddy == 1 || ddy == -1)) || (ddy == 0 && (ddx == 1 || ddx == -1))
    }
}

/// Which way an entity is looking.
#[derive(Debug, Clone, Copy, PartialEq, Eq, Structural)]
pub struct Facing {
    pub dir: Direction,
}

/// Every direction's offset is a single orthogonal unit step.
pub proof fn lemma_offset_is_unit_step(dir: Direction)
    ensures
        (dir.dx() == 0 && (dir.dy() == 1 || dir.dy() == -1)) || (dir.dy() == 0 && (dir.dx() == 1
            || dir.dx() == -1)),
{
}

/// A step always lands on a tile adjacent to the start, and the four
/// directions lead to four different tiles.
pub proof fn lemma_step_adjacent_and_distinct(p: GridPos, d1: Direction, d2: Direction)
    requires
        p.can_step_all(),
    ensures
        p.adjacent(p.step(d1)),
        p.step(d1) == p.step(d2) <==> d1 == d2,
{
}

} // verus!
