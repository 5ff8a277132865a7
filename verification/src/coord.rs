//! A generic 2-D container and its fixed-point instantiations.

use vstd::prelude::*;
use crate::direction::Direction;
use crate::distance::{Distance, fits_distance, round_millis, trunc_millis};
use crate::duration::Duration;
use crate::speed::Speed;

verus! {

/// A `Coord2D<T>` type to represent a position in cartesian space.
///
/// The arithmetic of the scalar type lifts component-wise; `Point` and
/// `Speed2D` are its two instantiations.
#[derive(Copy, Clone, Debug, PartialEq)]
pub struct Coord2D<T> {
    /// The X axis coordinate.
    pub x: T,
    /// The Y axis coordinate.
    pub y: T,
}

impl<T> Coord2D<T> {
    /// Creates a new `Coord2D` from its `x`/`y` coordinates.
    pub fn new(x: T, y: T) -> (r: Self)
        ensures
            r.x == x,
            r.y == y,
    {
        Self { x, y }
    }
}

/// A `Point` type: a pair of fixed-point distances.
pub type Point = Coord2D<Distance>;

/// A `Speed2D` type: independent speeds on the X and Y axis.
pub type Speed2D = Coord2D<Speed>;

/// Holds when `r` is the square root of `n` rounded down to an integer.
pub open spec fn is_floor_sqrt(n: int, r: int) -> bool {
    &&& r >= 0
    &&& r * r <= n
    &&& n < (r + 1) * (r + 1)
}

/// The square root of `n` rounded down to an integer.
pub open spec fn sqrt_millis(n: int) -> int {
    choose|r: int| is_floor_sqrt(n, r)
}

/// Every count has a rounded-down square root.
pub proof fn lemma_floor_sqrt_exists(n: int)
    requires
        n >= 0,
    ensures
        is_floor_sqrt(n, sqrt_millis(n)),
    decreases n,
{
    if n == 0 {
        assert(is_floor_sqrt(0, 0));
    } else {
        lemma_floor_sqrt_exists(n - 1);
        let r = sqrt_millis(n - 1);
        if n < (r + 1) * (r + 1) {
            assert(is_floor_sqrt(n, r));
        } else {
            assert(n == (r + 1) * (r + 1));
            assert((r + 2) * (r + 2) > n) by (nonlinear_arith)
                requires
                    n == (r + 1) * (r + 1),
                    r >= 0,
            ;
            assert(is_floor_sqrt(n, r + 1));
        }
    }
    assert(exists|w: int| is_floor_sqrt(n, w));
}

/// At most one integer is the rounded-down square root of `n`, so any
/// witness determines `sqrt_millis`.
pub proof fn lemma_floor_sqrt_unique(n: int, r: int)
    requires
        is_floor_sqrt(n, r),
    ensures
        sqrt_millis(n) == r,
{
    let w = sqrt_millis(n);
    assert(is_floor_sqrt(n, w));
    if w < r {
        assert((w + 1) * (w + 1) <= r * r) by (nonlinear_arith)
            requires
                0 <= w,
                w + 1 <= r,
        ;
    }
    if r < w {
        assert((r + 1) * (r + 1) <= w * w) by (nonlinear_arith)
            requires
                0 <= r,
                r + 1 <= w,
        ;
    }
}

/// The largest `r` with `r * r <= n`, found by binary search.
fn floor_sqrt(n: u64) -> (r: u64)
    ensures
        is_floor_sqrt(n as int, r as int),
{
    let mut lo: u64 = 0;
    let mut hi: u64 = 4_294_967_296;
    proof {
        assert(n < 4_294_967_296 * 4_294_967_296) by (nonlinear_arith)
            requires
                n <= u64::MAX,
        ;
    }
    while lo + 1 < hi
        invariant
            lo * lo <= n,
            n < hi * hi,
            lo < hi <= 4_294_967_296,
        decreases hi - lo,
    {
        let mid: u64 = lo + (hi - lo) / 2;
        proof {
            assert(mid * mid <= u64::MAX) by (nonlinear_arith)
                requires
                    mid < 4_294_967_296,
            ;
        }
        if mid * mid <= n {
            lo = mid;
        } else {
            hi = mid;
        }
    }
    lo
}

impl Point {
    /// The two coordinates of this `Point` counted in milliunits.
    pub open spec fn value_millis(self) -> (int, int) {
        (self.x.value_millis(), self.y.value_millis())
    }

    /// The squared straight-line distance of this `Point` from the origin,
    /// in squared milliunits.
    pub open spec fn len_sq_millis(self) -> int {
        self.x.value_millis() * self.x.value_millis() + self.y.value_millis()
            * self.y.value_millis()
    }

    /// Adds two `Point`s component-wise.
    pub fn add(&self, rhs: Point) -> (r: Point)
        requires
            fits_distance(self.x.value_millis() + rhs.x.value_millis()),
            fits_distance(self.y.value_millis() + rhs.y.value_millis()),
        ensures
            r.x.value_millis() == self.x.value_millis() + rhs.x.value_millis(),
            r.y.value_millis() == self.y.value_millis() + rhs.y.value_millis(),
    {
        Point::new(self.x.add(rhs.x), self.y.add(rhs.y))
    }

    /// Subtracts `rhs` from this `Point` component-wise.
    pub fn sub(&self, rhs: Point) -> (r: Point)
        requires
            fits_distance(self.x.value_millis() - rhs.x.value_millis()),
            fits_distance(self.y.value_millis() - rhs.y.value_millis()),
        ensures
            r.x.value_millis() == self.x.value_millis() - rhs.x.value_millis(),
            r.y.value_millis() == self.y.value_millis() - rhs.y.value_millis(),
    {
        Point::new(self.x.sub(rhs.x), self.y.sub(rhs.y))
    }

    /// Rounds both coordinates to whole units, halves away from zero.
    pub fn round(&self) -> (r: Point)
        requires
            self.x.value_millis() <= i16::MAX * 1000 + 499,
            self.y.value_millis() <= i16::MAX * 1000 + 499,
        ensures
            r.x.value_millis() == 1000 * round_millis(self.x.value_millis()),
            r.y.value_millis() == 1000 * round_millis(self.y.value_millis()),
            r.x.spec_millis() == 0,
            r.y.spec_millis() == 0,
    {
        Point::new(Distance::from_units(self.x.round()), Distance::from_units(self.y.round()))
    }

    /// Truncates both coordinates to whole units, toward zero.
    pub fn trunc(&self) -> (r: Point)
        ensures
            r.x.value_millis() == 1000 * trunc_millis(self.x.value_millis()),
            r.y.value_millis() == 1000 * trunc_millis(self.y.value_millis()),
            r.x.spec_millis() == 0,
            r.y.spec_millis() == 0,
    {
        Point::new(Distance::from_units(self.x.trunc()), Distance::from_units(self.y.trunc()))
    }

    /// Returns the euclidian `Distance` from the origin, rounded down to the
    /// milliunit.  Exact for axis-aligned points and pythagorean triples.
    pub fn length(&self) -> (r: Distance)
        requires
            self.len_sq_millis() < 32_768_000 * 32_768_000,
        ensures
            is_floor_sqrt(self.len_sq_millis(), r.value_millis()),
            r.value_millis() == sqrt_millis(self.len_sq_millis()),
            r.normalised(),
    {
        proof {
            use_type_invariant(self.x);
            use_type_invariant(self.y);
        }
        let vx: i64 = self.x.as_units() as i64 * 1000 + self.x.as_millis_part() as i64;
        let vy: i64 = self.y.as_units() as i64 * 1000 + self.y.as_millis_part() as i64;
        proof {
            assert(0 <= vx * vx <= 32_768_000 * 32_768_000 && 0 <= vy * vy <= 32_768_000
                * 32_768_000) by (nonlinear_arith)
                requires
                    -32_768_000 <= vx <= 32_768_000,
                    -32_768_000 <= vy <= 32_768_000,
            ;
        }
        let sq: u64 = (vx * vx + vy * vy) as u64;
        let root: u64 = floor_sqrt(sq);
        proof {
            assert(root <= i16::MAX * 1000 + 999) by (nonlinear_arith)
                requires
                    root * root <= sq,
                    sq < 32_768_000 * 32_768_000,
                    root >= 0,
            ;
        }
        let r = Distance::new((root / 1000) as i16, (root % 1000) as u16);
        proof {
            lemma_floor_sqrt_unique(self.len_sq_millis(), root as int);
        }
        r
    }

    /// The unit `Point` of a `Direction`: one coordinate is one unit, with
    /// the sign of the axis direction, and the other is zero.
    pub fn from_direction(direction: Direction) -> (r: Point)
        ensures
            r.value_millis() == (
                1000 * direction.spec_unit().0,
                1000 * direction.spec_unit().1,
            ),
    {
        match direction {
            Direction::Up => Point::new(Distance::from_units(0), Distance::from_units(-1)),
            Direction::Down => Point::new(Distance::from_units(0), Distance::from_units(1)),
            Direction::Left => Point::new(Distance::from_units(-1), Distance::from_units(0)),
            Direction::Right => Point::new(Distance::from_units(1), Distance::from_units(0)),
        }
    }
}

impl Speed2D {
    /// The per-axis travel of this `Speed2D` over `t` nanoseconds, in
    /// milliunits.
    pub open spec fn travel_millis(self, t: int) -> (int, int) {
        (self.x.travel_millis(t), self.y.travel_millis(t))
    }

    /// Multiplies a `Speed2D` by a `Duration` to produce the travelled
    /// `Point`.
    pub fn mul_duration(&self, rhs: Duration) -> (r: Point)
        requires
            fits_distance(self.x.travel_millis(rhs.spec_nanos() as int)),
            fits_distance(self.y.travel_millis(rhs.spec_nanos() as int)),
        ensures
            r.value_millis() == self.travel_millis(rhs.spec_nanos() as int),
    {
        Point::new(self.x.mul_duration(rhs), self.y.mul_duration(rhs))
    }

    /// Creates a new `Speed2D` from the `Point` travelled every second.
    pub fn from_per_sec(per_sec: Point) -> (r: Self)
        ensures
            r.x.spec_distance() == per_sec.x,
            r.y.spec_distance() == per_sec.y,
            r.x.spec_duration().spec_nanos() == 1_000_000_000,
            r.y.spec_duration().spec_nanos() == 1_000_000_000,
    {
        Coord2D::new(Speed::from_per_sec(per_sec.x), Speed::from_per_sec(per_sec.y))
    }

    /// Returns this `Speed2D` expressed as the `Point` travelled per second,
    /// floored to the milliunit.
    pub fn as_per_sec(&self) -> (r: Point)
        requires
            fits_distance(self.x.travel_millis(1_000_000_000)),
            fits_distance(self.y.travel_millis(1_000_000_000)),
        ensures
            r.value_millis() == self.travel_millis(1_000_000_000),
    {
        Point::new(self.x.as_per_sec(), self.y.as_per_sec())
    }

    /// The unit `Speed2D` of a `Direction`: one unit per second along the
    /// direction's axis, zero on the other.
    pub fn from_direction(direction: Direction) -> (r: Speed2D)
        ensures
            r.x.spec_distance().value_millis() == 1000 * direction.spec_unit().0,
            r.y.spec_distance().value_millis() == 1000 * direction.spec_unit().1,
            r.x.spec_duration().spec_nanos() == 1_000_000_000,
            r.y.spec_duration().spec_nanos() == 1_000_000_000,
    {
        Speed2D::from_per_sec(Point::from_direction(direction))
    }
}

} // verus!
