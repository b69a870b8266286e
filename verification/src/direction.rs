//! The heading of the snake and the opposite-direction relation that the
//! no-reverse rule of the state machine is built on.

use vstd::prelude::*;

verus! {

/// The direction the snake's head is facing.
#[derive(Debug, Clone, Copy, PartialEq, Eq, Structural)]
pub enum Direction {
    Up,
    Down,
    Left,
    Right,
}

impl Direction {
    /// The heading that points the opposite way.
    pub open spec fn spec_opposite(self) -> Direction {
        match self {
            Direction::Up => Direction::Down,
            Direction::Down => Direction::Up,
            Direction::Left => Direction::Right,
            Direction::Right => Direction::Left,
        }
    }

    /// The opposite direction.
    pub fn opposite(&self) -> (r: Direction)
        ensures
            r == self.spec_opposite(),
    {
        match self {
            Direction::Up => Direction::Down,
            Direction::Down => Direction::Up,
            Direction::Left => Direction::Right,
            Direction::Right => Direction::Left,
        }
    }

    /// Checks whether `other` is the opposite direction.
    pub fn is_opposite(&self, other: Direction) -> (r: bool)
        ensures
            r == (self.spec_opposite() == other),
    {
        self.opposite() == other
    }

    /// The glyph that renders a head moving this way.
    pub open spec fn spec_glyph(self) -> char {
        match self {
            Direction::Up => '^',
            Direction::Down => 'v',
            Direction::Left => '<',
            Direction::Right => '>',
        }
    }

    /// The glyph that renders a head moving this way.
    pub fn glyph(&self) -> (c: char)
        ensures
            c == self.spec_glyph(),
    {
        match self {
            Direction::Up => '^',
            Direction::Down => 'v',
            Direction::Left => '<',
            Direction::Right => '>',
        }
    }
}

/// Taking the opposite twice returns to the starting heading, and the
/// opposite is never the heading itself: this holds for every valid heading.
pub proof fn lemma_opposite_involution(d: Direction)
    ensures
        d.spec_opposite().spec_opposite() == d,
        d.spec_opposite() != d,
{
}

} // verus!
