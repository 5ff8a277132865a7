//! A grid point with corner-aware bounds checking.

use vstd::prelude::*;
use crate::direction::Direction;

verus! {

/// Locates a `Point` relative to two `Point`s (aka a rectangle), naming the
/// corner regions too.
#[derive(Copy, Clone, Eq, PartialEq, Structural, Debug)]
pub enum Location {
    /// Out past the top side.
    Top,
    /// Out past the bottom side.
    Bottom,
    /// Out past the left side.
    Left,
    /// Out past the right side.
    Right,
    /// Out past the top left corner.
    TopLeft,
    /// Out past the top right corner.
    TopRight,
    /// Out past the bottom left corner.
    BottomLeft,
    /// Out past the bottom right corner.
    BottomRight,
}

/// An `x`/`y` grid `Point`.
#[derive(Copy, Clone, Eq, PartialEq, Structural, Debug)]
pub struct Point {
    /// The X axis coordinate.
    pub x: i32,
    /// The Y axis coordinate.
    pub y: i32,
}

/// Where a point lies relative to the rectangle spanned by two corners:
/// `Ok` inside it, or `Err` with the side or corner region it escaped to.
pub open spec fn spec_locate(p: Point, top_left: Point, bottom_right: Point) -> Result<
    (),
    Location,
> {
    if p.x < top_left.x {
        if p.y < top_left.y {
            Err(Location::TopLeft)
        } else if p.y > bottom_right.y {
            Err(Location::TopRight)
        } else {
            Err(Location::Top)
        }
    } else if p.x > bottom_right.x {
        if p.y < top_left.y {
            Err(Location::BottomLeft)
        } else if p.y > bottom_right.y {
            Err(Location::BottomRight)
        } else {
            Err(Location::Bottom)
        }
    } else if p.y < top_left.y {
        Err(Location::Left)
    } else if p.y > bottom_right.y {
        Err(Location::Right)
    } else {
        Ok(())
    }
}

impl Point {
    /// Returns a new `Point`.
    pub fn new(x: i32, y: i32) -> (r: Self)
        ensures
            r.x == x,
            r.y == y,
    {
        Self { x, y }
    }

    /// Checks whether this `Point` lies within the rectangle spanned by
    /// `top_left` and `bottom_right`, reporting the region it escaped to
    /// otherwise.
    pub fn is_inside(&self, top_left: Self, bottom_right: Self) -> (r: Result<(), Location>)
        ensures
            r == spec_locate(*self, top_left, bottom_right),
            (r is Ok) <==> (top_left.x <= self.x <= bottom_right.x && top_left.y <= self.y
                <= bottom_right.y),
    {
        if self.x < top_left.x {
            if self.y < top_left.y {
                Err(Location::TopLeft)
            } else if self.y > bottom_right.y {
                Err(Location::TopRight)
            } else {
                Err(Location::Top)
            }
        } else if self.x > bottom_right.x {
            if self.y < top_left.y {
                Err(Location::BottomLeft)
            } else if self.y > bottom_right.y {
                Err(Location::BottomRight)
            } else {
                Err(Location::Bottom)
            }
        } else if self.y < top_left.y {
            Err(Location::Left)
        } else if self.y > bottom_right.y {
            Err(Location::Right)
        } else {
            Ok(())
        }
    }

    /// The unit step of a `Direction`.
    pub fn from_direction(direction: Direction) -> (r: Self)
        ensures
            r.x == direction.spec_unit().0,
            r.y == direction.spec_unit().1,
    {
        match direction {
            Direction::Up => Self { x: 0, y: -1 },
            Direction::Down => Self { x: 0, y: 1 },
            Direction::Left => Self { x: -1, y: 0 },
            Direction::Right => Self { x: 1, y: 0 },
        }
    }

    /// Geometric addition.
    pub fn add(&self, rhs: Self) -> (r: Self)
        requires
            i32::MIN <= self.x + rhs.x <= i32::MAX,
            i32::MIN <= self.y + rhs.y <= i32::MAX,
        ensures
            r.x == self.x + rhs.x,
            r.y == self.y + rhs.y,
    {
        Self { x: self.x + rhs.x, y: self.y + rhs.y }
    }
}

} // verus!
