//! A discrete grid cell.

use vstd::prelude::*;
use crate::direction::Direction;

verus! {

/// Locates a `Position` relative to a rectangle: inside it, or out past one
/// of its sides.
#[derive(Copy, Clone, Eq, PartialEq, Structural, Debug)]
pub enum Inside {
    /// Out past the top side.
    Top,
    /// Out past the bottom side.
    Bottom,
    /// Out past the left side.
    Left,
    /// Out past the right side.
    Right,
    /// Within the rectangle.
    Inside,
}

/// A discrete cell of the game grid.
#[derive(Copy, Clone, Eq, PartialEq, Structural, Debug)]
pub struct Position {
    /// The X axis coordinate.
    x: i32,
    /// The Y axis coordinate.
    y: i32,
}

/// Where a cell lies relative to the rectangle spanned by two corner cells,
/// testing the top and bottom bounds first.
pub open spec fn spec_locate(p: Position, top_left: Position, bottom_right: Position) -> Inside {
    if p.spec_x() < top_left.spec_x() {
        Inside::Top
    } else if p.spec_x() > bottom_right.spec_x() {
        Inside::Bottom
    } else if p.spec_y() < top_left.spec_y() {
        Inside::Left
    } else if p.spec_y() > bottom_right.spec_y() {
        Inside::Right
    } else {
        Inside::Inside
    }
}

impl Position {
    /// The X axis coordinate.
    pub closed spec fn spec_x(self) -> int {
        self.x as int
    }

    /// The Y axis coordinate.
    pub closed spec fn spec_y(self) -> int {
        self.y as int
    }

    /// Creates a new `Position` from its coordinates.
    pub fn new(x: i32, y: i32) -> (r: Self)
        ensures
            r.spec_x() == x,
            r.spec_y() == y,
    {
        Self { x, y }
    }

    /// The X axis coordinate.
    pub fn x(&self) -> (r: i32)
        ensures
            r == self.spec_x(),
    {
        self.x
    }

    /// The Y axis coordinate.
    pub fn y(&self) -> (r: i32)
        ensures
            r == self.spec_y(),
    {
        self.y
    }

    /// Locates this `Position` relative to the rectangle spanned by
    /// `top_left` and `bottom_right`.
    pub fn is_inside(&self, top_left: Self, bottom_right: Self) -> (r: Inside)
        ensures
            r == spec_locate(*self, top_left, bottom_right),
    {
        if self.x < top_left.x {
            Inside::Top
        } else if self.x > bottom_right.x {
            Inside::Bottom
        } else if self.y < top_left.y {
            Inside::Left
        } else if self.y > bottom_right.y {
            Inside::Right
        } else {
            Inside::Inside
        }
    }

    /// The unit cell step of a `Direction`.
    pub fn from_direction(direction: Direction) -> (r: Self)
        ensures
            r.spec_x() == direction.spec_unit().0,
            r.spec_y() == direction.spec_unit().1,
    {
        match direction {
            Direction::Up => Self { x: 0, y: -1 },
            Direction::Down => Self { x: 0, y: 1 },
            Direction::Left => Self { x: -1, y: 0 },
            Direction::Right => Self { x: 1, y: 0 },
        }
    }

    /// Adds two cells component-wise.
    pub fn add(&self, rhs: Self) -> (r: Self)
        requires
            i32::MIN <= self.spec_x() + rhs.spec_x() <= i32::MAX,
            i32::MIN <= self.spec_y() + rhs.spec_y() <= i32::MAX,
        ensures
            r.spec_x() == self.spec_x() + rhs.spec_x(),
            r.spec_y() == self.spec_y() + rhs.spec_y(),
    {
        Self { x: self.x + rhs.x, y: self.y + rhs.y }
    }

    /// The neighbouring cell one step in a `Direction`.
    pub fn step(&self, direction: Direction) -> (r: Self)
        requires
            i32::MIN <= self.spec_x() + direction.spec_unit().0 <= i32::MAX,
            i32::MIN <= self.spec_y() + direction.spec_unit().1 <= i32::MAX,
        ensures
            r.spec_x() == self.spec_x() + direction.spec_unit().0,
            r.spec_y() == self.spec_y() + direction.spec_unit().1,
    {
        self.add(Self::from_direction(direction))
    }
}

} // verus!
