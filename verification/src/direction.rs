//! The four cardinal directions of the grid.

use vstd::prelude::*;

verus! {

/// A type to represent the four `Direction`s.
#[derive(Copy, Clone, Debug, PartialEq, Eq, Structural)]
pub enum Direction {
    /// The up `Direction`.
    Up,
    /// The down `Direction`.
    Down,
    /// The left `Direction`.
    Left,
    /// The right `Direction`.
    Right,
}

impl Direction {
    /// The opposite of each `Direction`: up and down swap, left and right
    /// swap.
    pub open spec fn spec_opposite(self) -> Direction {
        match self {
            Direction::Up => Direction::Down,
            Direction::Down => Direction::Up,
            Direction::Left => Direction::Right,
            Direction::Right => Direction::Left,
        }
    }

    /// `true` exactly for the horizontal directions, left and right.
    pub open spec fn spec_is_horizontal(self) -> bool {
        self == Direction::Left || self == Direction::Right
    }

    /// The unit step of each `Direction` on a grid whose `y` axis grows
    /// downward: exactly one axis moves, by exactly one.
    pub open spec fn spec_unit(self) -> (int, int) {
        match self {
            Direction::Up => (0, -1),
            Direction::Down => (0, 1),
            Direction::Left => (-1, 0),
            Direction::Right => (1, 0),
        }
    }

    /// Returns the opposite `Direction`.
    pub fn opposite(&self) -> (r: Self)
        ensures
            r == self.spec_opposite(),
    {
        match self {
            Direction::Up => Direction::Down,
            Direction::Down => Direction::Up,
            Direction::Left => Direction::Right,
            Direction::Right => Direction::Left,
        }
    }

    /// Returns `true` if this `Direction` is horizontal.
    pub fn is_horizontal(&self) -> (r: bool)
        ensures
            r == self.spec_is_horizontal(),
    {
        match self {
            Direction::Left | Direction::Right => true,
            Direction::Up | Direction::Down => false,
        }
    }
}

/// Taking the opposite twice gives the original `Direction` back, and the
/// opposite of a `Direction` lies on the same axis.
pub proof fn lemma_opposite_involution(d: Direction)
    ensures
        d.spec_opposite().spec_opposite() == d,
        d.spec_opposite().spec_is_horizontal() == d.spec_is_horizontal(),
{
}

} // verus!
