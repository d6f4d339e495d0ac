//! The arena, the cells in it and the extent of what stands on them.

use vstd::prelude::*;
use crate::direction::SnakeDirection;

verus! {

/// Number of cells across the arena.
pub const ARENA_WIDTH: u32 = 10;

/// Number of cells up the arena.
pub const ARENA_HEIGHT: u32 = 10;

/// The fraction 0.8 of a cell, as the bit pattern of an IEEE 754 single
/// precision number: the extent of the snake's head and of food along both
/// axes, which leaves a gutter between neighbouring cells.
pub const SPRITE_EXTENT: u32 = 0x3F4C_CCCD;

/// A cell of the grid. Nothing keeps a position inside the arena: the snake
/// may walk off its edge.
#[derive(Clone, Copy, Debug, PartialEq, Eq, Structural)]
pub struct Position {
    pub x: i32,
    pub y: i32,
}

/// Extent of an entity along each axis, as a fraction of one cell.
///
/// The verified core carries the two fractions without computing on them, so
/// each field holds the bit pattern of an IEEE 754 single precision number
/// (what `to_bits` gives and `from_bits` takes).
#[derive(Clone, Copy, Debug, PartialEq, Eq, Structural)]
pub struct Size {
    pub width: u32,
    pub height: u32,
}

impl Size {
    /// An extent that is the same along both axes.
    pub fn square(x: u32) -> (size: Size)
        ensures
            size.width == x,
            size.height == x,
    {
        Size { width: x, height: x }
    }
}

impl SnakeDirection {
    /// Change of the x coordinate in one step along this heading.
    pub open spec fn dx(self) -> int {
        match self {
            SnakeDirection::LEFT => -1,
            SnakeDirection::RIGHT => 1,
            _ => 0,
        }
    }

    /// Change of the y coordinate in one step along this heading.
    pub open spec fn dy(self) -> int {
        match self {
            SnakeDirection::UP => 1,
            SnakeDirection::DOWN => -1,
            _ => 0,
        }
    }
}

impl Position {
    /// Whether the neighbouring cell along `dir` still has coordinates that
    /// fit the integer type.
    pub open spec fn can_step(self, dir: SnakeDirection) -> bool {
        &&& i32::MIN <= self.x + dir.dx() <= i32::MAX
        &&& i32::MIN <= self.y + dir.dy() <= i32::MAX
    }

    /// The neighbouring cell along `dir`.
    pub open spec fn stepped(self, dir: SnakeDirection) -> Position
        recommends
            self.can_step(dir),
    {
        Position { x: (self.x + dir.dx()) as i32, y: (self.y + dir.dy()) as i32 }
    }

    /// Executable form of [`Position::can_step`].
    pub fn has_room(&self, dir: SnakeDirection) -> (room: bool)
        ensures
            room == self.can_step(dir),
    {
        match dir {
            SnakeDirection::UP => self.y < i32::MAX,
            SnakeDirection::DOWN => self.y > i32::MIN,
            SnakeDirection::LEFT => self.x > i32::MIN,
            SnakeDirection::RIGHT => self.x < i32::MAX,
        }
    }

    /// Moves one cell along `dir`: up adds one to y, down takes one from it,
    /// right adds one to x, left takes one from it. The arena's edge is no
    /// barrier and nothing wraps around.
    pub fn step(self, dir: SnakeDirection) -> (next: Position)
        requires
            self.can_step(dir),
        ensures
            next == self.stepped(dir),
            next.x == self.x + dir.dx(),
            next.y == self.y + dir.dy(),
    {
        match dir {
            SnakeDirection::UP => Position { x: self.x, y: self.y + 1 },
            SnakeDirection::DOWN => Position { x: self.x, y: self.y - 1 },
            SnakeDirection::LEFT => Position { x: self.x - 1, y: self.y },
            SnakeDirection::RIGHT => Position { x: self.x + 1, y: self.y },
        }
    }
}

/// One step changes exactly one coordinate, by exactly one, and leaves the
/// other as it was: y for up (+1) and down (-1), x for right (+1) and left
/// (-1).
pub proof fn lemma_step_moves_one_axis(p: Position, dir: SnakeDirection)
    requires
        p.can_step(dir),
    ensures
        match dir {
            SnakeDirection::UP => p.stepped(dir).x == p.x && p.stepped(dir).y == p.y + 1,
            SnakeDirection::DOWN => p.stepped(dir).x == p.x && p.stepped(dir).y == p.y - 1,
            SnakeDirection::LEFT => p.stepped(dir).x == p.x - 1 && p.stepped(dir).y == p.y,
            SnakeDirection::RIGHT => p.stepped(dir).x == p.x + 1 && p.stepped(dir).y == p.y,
        },
        (p.stepped(dir).x != p.x) != (p.stepped(dir).y != p.y),
{
}

} // verus!
