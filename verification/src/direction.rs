//! The heading of the snake and the rule by which held keys change it.

use vstd::prelude::*;

verus! {

/// Direction in which the snake's head travels.
#[derive(Clone, Copy, Debug, PartialEq, Eq, Structural)]
pub enum SnakeDirection {
    UP,
    DOWN,
    LEFT,
    RIGHT,
}

/// A key as the steering rule sees it: one of the four direction keys, or
/// anything else.
#[derive(Clone, Copy, Debug, PartialEq, Eq, Structural)]
pub enum Key {
    Left,
    Right,
    Up,
    Down,
    Other,
}

/// Which of the four direction keys are held down at the moment of sampling.
#[derive(Clone, Copy, Debug, PartialEq, Eq, Structural)]
pub struct HeldKeys {
    pub left: bool,
    pub right: bool,
    pub up: bool,
    pub down: bool,
}

impl Key {
    /// The heading that the key asks for; `None` for a key that is not a
    /// direction key.
    pub open spec fn heading(self) -> Option<SnakeDirection> {
        match self {
            Key::Left => Some(SnakeDirection::LEFT),
            Key::Right => Some(SnakeDirection::RIGHT),
            Key::Up => Some(SnakeDirection::UP),
            Key::Down => Some(SnakeDirection::DOWN),
            Key::Other => None,
        }
    }

    /// Place of the key in the order of precedence: the smaller, the earlier
    /// it is considered when several keys are held.
    pub open spec fn rank(self) -> nat {
        match self {
            Key::Left => 0,
            Key::Right => 1,
            Key::Up => 2,
            Key::Down => 3,
            Key::Other => 4,
        }
    }
}

impl SnakeDirection {
    /// The heading that points the other way along the same axis.
    pub open spec fn opposite(self) -> SnakeDirection {
        match self {
            SnakeDirection::UP => SnakeDirection::DOWN,
            SnakeDirection::DOWN => SnakeDirection::UP,
            SnakeDirection::LEFT => SnakeDirection::RIGHT,
            SnakeDirection::RIGHT => SnakeDirection::LEFT,
        }
    }

    /// Whether the heading runs along the y axis.
    pub open spec fn is_vertical(self) -> bool {
        self == SnakeDirection::UP || self == SnakeDirection::DOWN
    }

    /// Whether the two headings run along different axes.
    pub open spec fn crosses(self, other: SnakeDirection) -> bool {
        self.is_vertical() != other.is_vertical()
    }

    /// The heading after one sampling step in which `key` is the key taken
    /// from the input: a direction key is obeyed when it asks for a quarter
    /// turn, and everything else leaves the heading as it is.
    pub open spec fn turned(self, key: Option<Key>) -> SnakeDirection {
        match key {
            Some(k) => match k.heading() {
                Some(wanted) => if wanted.crosses(self) {
                    wanted
                } else {
                    self
                },
                None => self,
            },
            None => self,
        }
    }

    /// Applies the steering rule once.
    ///
    /// Left and right are obeyed while travelling up or down, up and down
    /// while travelling left or right. No key, a key that is not a direction
    /// key, and a key along the current axis change nothing, so the snake
    /// never reverses into itself in one step.
    pub fn turn(self, key: Option<Key>) -> (next: SnakeDirection)
        ensures
            next == self.turned(key),
            next != self.opposite(),
    {
        match key {
            Some(Key::Left) => match self {
                SnakeDirection::UP | SnakeDirection::DOWN => SnakeDirection::LEFT,
                _ => self,
            },
            Some(Key::Right) => match self {
                SnakeDirection::UP | SnakeDirection::DOWN => SnakeDirection::RIGHT,
                _ => self,
            },
            Some(Key::Up) => match self {
                SnakeDirection::LEFT | SnakeDirection::RIGHT => SnakeDirection::UP,
                _ => self,
            },
            Some(Key::Down) => match self {
                SnakeDirection::LEFT | SnakeDirection::RIGHT => SnakeDirection::DOWN,
                _ => self,
            },
            _ => self,
        }
    }
}

impl HeldKeys {
    /// Whether `key` is among the held keys. Only direction keys are tracked.
    pub open spec fn holds(self, key: Key) -> bool {
        match key {
            Key::Left => self.left,
            Key::Right => self.right,
            Key::Up => self.up,
            Key::Down => self.down,
            Key::Other => false,
        }
    }

    /// The held key that the steering rule takes: with several keys held,
    /// left goes before right, right before up, and up before down.
    pub open spec fn foremost(self) -> Option<Key> {
        if self.left {
            Some(Key::Left)
        } else if self.right {
            Some(Key::Right)
        } else if self.up {
            Some(Key::Up)
        } else if self.down {
            Some(Key::Down)
        } else {
            None
        }
    }

    /// Picks the one key that counts for this sampling step, all others
    /// being ignored: the held key of the smallest rank, or `None` when no
    /// direction key is held.
    pub fn first(&self) -> (key: Option<Key>)
        ensures
            key == self.foremost(),
            match key {
                Some(k) => self.holds(k) && forall|other: Key|
                    self.holds(other) ==> k.rank() <= #[trigger] other.rank(),
                None => forall|other: Key| !#[trigger] self.holds(other),
            },
    {
        if self.left {
            Some(Key::Left)
        } else if self.right {
            Some(Key::Right)
        } else if self.up {
            Some(Key::Up)
        } else if self.down {
            Some(Key::Down)
        } else {
            None
        }
    }
}

/// One application of the steering rule never yields the heading directly
/// opposite to the one it started from, whatever the input.
pub proof fn lemma_turn_never_reverses(heading: SnakeDirection, key: Option<Key>)
    ensures
        heading.turned(key) != heading.opposite(),
{
}

/// The steering rule either keeps the heading or makes a quarter turn onto
/// the heading that the key asks for.
pub proof fn lemma_turn_keeps_or_crosses(heading: SnakeDirection, key: Option<Key>)
    ensures
        heading.turned(key) == heading || (heading.turned(key).crosses(heading) && key is Some
            && key->0.heading() == Some(heading.turned(key))),
{
}

} // verus!
