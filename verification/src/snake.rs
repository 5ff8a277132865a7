//! The snake, moving continuously on a discrete grid.

use vstd::prelude::*;
use crate::coord::{Point, Speed2D, is_floor_sqrt, lemma_floor_sqrt_unique};
use crate::direction::Direction;
use crate::distance::{Distance, fits_distance, round_millis, trunc_millis};
use crate::duration::Duration;
use vstd::math::abs;
use vstd::arithmetic::div_mod::lemma_fundamental_div_mod_converse_div;

verus! {

/// The infamous `Snake`.
///
/// It keeps a continuous, sub-cell `position` and a body of whole-cell
/// `Point`s, head first.  Each update moves the position along the current
/// `Direction` at the configured `Speed2D`; whenever the position crosses
/// into new cells, the head grows by that many cells and the tail shrinks
/// by the same count, preserving the body length.
pub struct Snake {
    /// The continuous position, with sub-cell precision.
    position: Point,
    /// The occupied cells, head first.
    body: Vec<Point>,
    /// The direction of travel.
    direction: Direction,
    /// The speed per axis.
    speed: Speed2D,
    /// The cell the tail last left, kept for growing after a meal.
    last_tail: Option<Point>,
}

impl Snake {
    /// The continuous position.
    pub closed spec fn spec_position(self) -> Point {
        self.position
    }

    /// The occupied cells, head first.
    pub closed spec fn spec_body(self) -> Seq<Point> {
        self.body@
    }

    /// The direction of travel.
    pub closed spec fn spec_direction(self) -> Direction {
        self.direction
    }

    /// The speed per axis.
    pub closed spec fn spec_speed(self) -> Speed2D {
        self.speed
    }

    /// The cell the tail last left.
    pub closed spec fn spec_last_tail(self) -> Option<Point> {
        self.last_tail
    }

    /// The continuous travel of one update along the current direction:
    /// the direction's axis moves by the speed of that axis, signed, and
    /// the other axis stands still.
    pub open spec fn travel_of(self, d: int) -> (int, int) {
        match self.spec_direction() {
            Direction::Up => (0int, -self.spec_speed().y.travel_millis(d)),
            Direction::Down => (0int, self.spec_speed().y.travel_millis(d)),
            Direction::Left => (-self.spec_speed().x.travel_millis(d), 0int),
            Direction::Right => (self.spec_speed().x.travel_millis(d), 0int),
        }
    }

    /// The position an update by `d` nanoseconds reaches, in milliunits.
    pub open spec fn moved_pos(self, d: int) -> (int, int) {
        (
            self.spec_position().x.value_millis() + self.travel_of(d).0,
            self.spec_position().y.value_millis() + self.travel_of(d).1,
        )
    }

    /// The whole cells the position crosses in an update by `d`
    /// nanoseconds, per axis.
    pub open spec fn crossed(self, d: int) -> (int, int) {
        (
            trunc_millis(self.moved_pos(d).0) - trunc_millis(
                self.spec_position().x.value_millis(),
            ),
            trunc_millis(self.moved_pos(d).1) - trunc_millis(
                self.spec_position().y.value_millis(),
            ),
        )
    }

    /// Creates a new `Snake` at `position`, heading `direction` at `speed`.
    /// Its body is the single cell the position lies in.
    pub fn new(position: Point, direction: Direction, speed: Speed2D) -> (r: Self)
        ensures
            r.spec_position() == position,
            r.spec_direction() == direction,
            r.spec_speed() == speed,
            r.spec_body().len() == 1,
            r.spec_body()[0].x.value_millis() == 1000 * trunc_millis(position.x.value_millis()),
            r.spec_body()[0].y.value_millis() == 1000 * trunc_millis(position.y.value_millis()),
            r.spec_last_tail() is None,
    {
        let mut body: Vec<Point> = Vec::new();
        body.push(position.trunc());

        Self { position, body, direction, speed, last_tail: None }
    }

    /// Changes the direction of travel.  An attempted reversal — the
    /// opposite of the current direction — is silently ignored, so the
    /// snake can never fold back onto its own neck.
    pub fn set_direction(&mut self, direction: Direction)
        ensures
            final(self).spec_direction() == (if direction == old(self).spec_direction().spec_opposite() {
                old(self).spec_direction()
            } else {
                direction
            }),
            final(self).spec_position() == old(self).spec_position(),
            final(self).spec_body() == old(self).spec_body(),
            final(self).spec_speed() == old(self).spec_speed(),
            final(self).spec_last_tail() == old(self).spec_last_tail(),
    {
        if !(self.direction.opposite() == direction) {
            self.direction = direction;
        }
    }

    /// The cell the head occupies.
    pub fn head(&self) -> (r: Point)
        requires
            self.spec_body().len() >= 1,
        ensures
            r == self.spec_body()[0],
    {
        self.body[0]
    }

    /// Grows the head by `count` cells along the current direction.
    pub fn grow_head(&mut self, count: u8)
        requires
            old(self).spec_body().len() >= 1,
            fits_distance(
                old(self).spec_body()[0].x.value_millis() + count * 1000 * old(self).spec_direction().spec_unit().0,
            ),
            fits_distance(
                old(self).spec_body()[0].y.value_millis() + count * 1000 * old(self).spec_direction().spec_unit().1,
            ),
        ensures
            final(self).spec_body().len() == old(self).spec_body().len() + count,
            forall|k: int|
                0 <= k < count ==> (#[trigger] final(self).spec_body()[k]).x.value_millis()
                    == old(self).spec_body()[0].x.value_millis() + (count - k) * 1000 * old(self).spec_direction().spec_unit().0 && final(self).spec_body()[k].y.value_millis()
                    == old(self).spec_body()[0].y.value_millis() + (count - k) * 1000 * old(self).spec_direction().spec_unit().1,
            forall|k: int|
                count <= k < final(self).spec_body().len() ==> final(self).spec_body()[k] == old(self).spec_body()[k - count],
            final(self).spec_position() == old(self).spec_position(),
            final(self).spec_direction() == old(self).spec_direction(),
            final(self).spec_speed() == old(self).spec_speed(),
            final(self).spec_last_tail() == old(self).spec_last_tail(),
    {
        let head0 = self.body[0];
        proof {
            use_type_invariant(head0.x);
            use_type_invariant(head0.y);
        }
        let ghost first = self.body@[0];
        let ghost ux = self.direction.spec_unit().0;
        let ghost uy = self.direction.spec_unit().1;
        let unit = Point::from_direction(self.direction);
        proof {
            assert(0 * 1000 * ux == 0 && 0 * 1000 * uy == 0) by (nonlinear_arith);
        }
        let mut i: u8 = 0;
        while i < count
            invariant
                i <= count,
                self.body@.len() == old(self).body@.len() + i,
                self.body@.len() >= 1,
                unit.x.value_millis() == 1000 * ux,
                unit.y.value_millis() == 1000 * uy,
                -1 <= ux <= 1,
                -1 <= uy <= 1,
                first == old(self).body@[0],
                fits_distance(first.x.value_millis()),
                fits_distance(first.y.value_millis()),
                fits_distance(first.x.value_millis() + count * 1000 * ux),
                fits_distance(first.y.value_millis() + count * 1000 * uy),
                self.body@[0].x.value_millis() == first.x.value_millis() + i * 1000 * ux,
                self.body@[0].y.value_millis() == first.y.value_millis() + i * 1000 * uy,
                forall|k: int|
                    0 <= k < i ==> (#[trigger] self.body@[k]).x.value_millis()
                        == first.x.value_millis() + (i - k) * 1000 * ux
                        && self.body@[k].y.value_millis() == first.y.value_millis() + (i - k)
                        * 1000 * uy,
                forall|k: int|
                    i <= k < self.body@.len() ==> self.body@[k] == old(self).body@[k - i],
                self.position == old(self).position,
                self.direction == old(self).direction,
                self.speed == old(self).speed,
                self.last_tail == old(self).last_tail,
            decreases count - i,
        {
            let head = self.body[0];
            proof {
                assert(i * 1000 * ux <= count * 1000 * ux || ux < 0) by (nonlinear_arith)
                    requires
                        0 <= i < count,
                        -1 <= ux <= 1,
                ;
                assert((i + 1) * 1000 * ux == i * 1000 * ux + 1000 * ux && (i + 1) * 1000 * uy
                    == i * 1000 * uy + 1000 * uy) by (nonlinear_arith);
                assert(fits_distance(head.x.value_millis() + 1000 * ux) && fits_distance(
                    head.y.value_millis() + 1000 * uy,
                )) by (nonlinear_arith)
                    requires
                        head.x.value_millis() == first.x.value_millis() + i * 1000 * ux,
                        head.y.value_millis() == first.y.value_millis() + i * 1000 * uy,
                        fits_distance(first.x.value_millis() + count * 1000 * ux),
                        fits_distance(first.y.value_millis() + count * 1000 * uy),
                        fits_distance(first.x.value_millis()),
                        fits_distance(first.y.value_millis()),
                        0 <= i < count,
                        -1 <= ux <= 1,
                        -1 <= uy <= 1,
                ;
            }
            let next = head.add(unit);
            self.body.insert(0, next);
            i = i + 1;
        }
    }

    /// Puts the cell the tail last left back onto the body, growing the
    /// snake after a meal.
    pub fn grow_tail(&mut self)
        ensures
            old(self).spec_last_tail() matches Some(t) ==> final(self).spec_body() == seq![t]
                + old(self).spec_body(),
            old(self).spec_last_tail() is None ==> final(self).spec_body() == old(self).spec_body(),
            final(self).spec_last_tail() is None,
            final(self).spec_position() == old(self).spec_position(),
            final(self).spec_direction() == old(self).spec_direction(),
            final(self).spec_speed() == old(self).spec_speed(),
    {
        match self.last_tail {
            Some(tail) => {
                self.body.insert(0, tail);
                self.last_tail = None;
                proof {
                    assert(self.body@ =~= seq![tail] + old(self).body@);
                }
            },
            None => {
                self.last_tail = None;
            },
        }
    }

    /// Shrinks the tail by `count` cells, remembering the last cell left.
    pub fn shrink(&mut self, count: u8)
        requires
            count <= old(self).spec_body().len(),
        ensures
            final(self).spec_body() == old(self).spec_body().take(
                old(self).spec_body().len() - count,
            ),
            count > 0 ==> final(self).spec_last_tail() == Some(
                old(self).spec_body()[old(self).spec_body().len() - count],
            ),
            count == 0 ==> final(self).spec_last_tail() == old(self).spec_last_tail(),
            final(self).spec_position() == old(self).spec_position(),
            final(self).spec_direction() == old(self).spec_direction(),
            final(self).spec_speed() == old(self).spec_speed(),
    {
        let mut i: u8 = 0;
        while i < count
            invariant
                i <= count,
                count <= old(self).body@.len(),
                self.body@ == old(self).body@.take(old(self).body@.len() - i),
                i > 0 ==> self.last_tail == Some(old(self).body@[old(self).body@.len() - i]),
                i == 0 ==> self.last_tail == old(self).last_tail,
                self.position == old(self).position,
                self.direction == old(self).direction,
                self.speed == old(self).speed,
            decreases count - i,
        {
            match self.body.pop() {
                Some(tail) => {
                    self.last_tail = Some(tail);
                },
                None => {
                },
            }
            i = i + 1;
            proof {
                assert(self.body@ =~= old(self).body@.take(old(self).body@.len() - i));
            }
        }
    }

    /// The travel along the direction's own axis, unsigned.
    pub open spec fn axis_travel(self, d: int) -> int {
        if self.spec_direction().spec_is_horizontal() {
            self.spec_speed().x.travel_millis(d)
        } else {
            self.spec_speed().y.travel_millis(d)
        }
    }

    /// The number of whole cells an update by `d` nanoseconds crosses.
    pub open spec fn cells_crossed(self, d: int) -> int {
        (abs(self.crossed(d).0) + abs(self.crossed(d).1)) as int
    }

    /// The conditions under which one update stays within the fixed-point
    /// range: the moved position and the grown head fit, and no more cells
    /// are crossed per update than the body arithmetic carries.
    pub open spec fn advance_ok(self, d: int) -> bool {
        &&& self.spec_body().len() >= 1
        &&& fits_distance(self.axis_travel(d))
        &&& fits_distance(self.moved_pos(d).0)
        &&& fits_distance(self.moved_pos(d).1)
        &&& -255 <= self.crossed(d).0 <= 255
        &&& -255 <= self.crossed(d).1 <= 255
        &&& fits_distance(
            self.spec_body()[0].x.value_millis() + self.cells_crossed(d) * 1000
                * self.spec_direction().spec_unit().0,
        )
        &&& fits_distance(
            self.spec_body()[0].y.value_millis() + self.cells_crossed(d) * 1000
                * self.spec_direction().spec_unit().1,
        )
    }

    /// Advances the snake by a `Duration`: the continuous position moves
    /// along the current direction at the configured speed; for every whole
    /// cell the position crosses, the head grows by one cell and the tail
    /// shrinks by one, so the body length is preserved.
    pub fn advance(&mut self, duration: Duration)
        requires
            old(self).advance_ok(duration.spec_nanos() as int),
        ensures
            final(self).spec_position().x.value_millis() == old(self).moved_pos(
                duration.spec_nanos() as int,
            ).0,
            final(self).spec_position().y.value_millis() == old(self).moved_pos(
                duration.spec_nanos() as int,
            ).1,
            final(self).spec_direction() == old(self).spec_direction(),
            final(self).spec_speed() == old(self).spec_speed(),
            final(self).spec_body().len() == old(self).spec_body().len(),
            old(self).cells_crossed(duration.spec_nanos() as int) == 0 ==> final(self).spec_body() == old(self).spec_body() && final(self).spec_last_tail() == old(self).spec_last_tail(),
            forall|k: int|
                0 <= k < old(self).cells_crossed(duration.spec_nanos() as int) && k < old(self).spec_body().len() ==> (#[trigger] final(self).spec_body()[k]).x.value_millis()
                    == old(self).spec_body()[0].x.value_millis() + (old(self).cells_crossed(
                    duration.spec_nanos() as int,
                ) - k) * 1000 * old(self).spec_direction().spec_unit().0 && final(self).spec_body()[k].y.value_millis() == old(self).spec_body()[0].y.value_millis() + (
                old(self).cells_crossed(duration.spec_nanos() as int) - k) * 1000 * old(self).spec_direction().spec_unit().1,
            forall|k: int|
                old(self).cells_crossed(duration.spec_nanos() as int) <= k < old(self).spec_body().len() ==> final(self).spec_body()[k] == old(self).spec_body()[k - old(self).cells_crossed(duration.spec_nanos() as int)],
            0 < old(self).cells_crossed(duration.spec_nanos() as int) <= old(self).spec_body().len() ==> final(self).spec_last_tail() == Some(
                old(self).spec_body()[old(self).spec_body().len() - old(self).cells_crossed(
                    duration.spec_nanos() as int,
                )],
            ),
    {
        let ghost d = duration.spec_nanos() as int;
        let prev = self.position.trunc();

        // Move the continuous position along the direction's axis.
        match self.direction {
            Direction::Right => {
                let t = self.speed.x.mul_duration(duration);
                self.position = Point::new(self.position.x.add(t), self.position.y);
            },
            Direction::Left => {
                let t = self.speed.x.mul_duration(duration);
                self.position = Point::new(self.position.x.sub(t), self.position.y);
            },
            Direction::Down => {
                let t = self.speed.y.mul_duration(duration);
                self.position = Point::new(self.position.x, self.position.y.add(t));
            },
            Direction::Up => {
                let t = self.speed.y.mul_duration(duration);
                self.position = Point::new(self.position.x, self.position.y.sub(t));
            },
        }

        let now = self.position.trunc();
        let ghost c0 = old(self).crossed(d).0;
        let ghost c1 = old(self).crossed(d).1;

        if !(now.x == prev.x) || !(now.y == prev.y) {
            // Count the whole cells crossed: the straight-line length of
            // the whole-cell difference, which lies on a single axis.
            let diff = now.sub(prev);
            proof {
                assert(diff.x.value_millis() == 1000 * c0 && diff.y.value_millis() == 1000 * c1);
                assert(c0 == 0 || c1 == 0);
                assert(diff.len_sq_millis() == 1000 * c0 * (1000 * c0) + 1000 * c1 * (1000 * c1));
                assert(1000 * c0 * (1000 * c0) + 1000 * c1 * (1000 * c1) == (1000 * (abs(c0)
                    + abs(c1))) * (1000 * (abs(c0) + abs(c1)))) by (nonlinear_arith)
                    requires
                        c0 == 0 || c1 == 0,
                ;
                assert((1000 * (abs(c0) + abs(c1))) * (1000 * (abs(c0) + abs(c1))) < 32_768_000
                    * 32_768_000) by (nonlinear_arith)
                    requires
                        0 <= abs(c0) + abs(c1) <= 510,
                ;
            }
            let len_d = diff.length();
            proof {
                let g: int = (abs(c0) + abs(c1)) as int;
                assert(is_floor_sqrt(diff.len_sq_millis(), 1000 * g)) by (nonlinear_arith)
                    requires
                        diff.len_sq_millis() == (1000 * g) * (1000 * g),
                        g >= 0,
                ;
                lemma_floor_sqrt_unique(diff.len_sq_millis(), 1000 * g);
                assert(len_d.value_millis() == 1000 * g);
                assert(round_millis(1000 * g) == g) by {
                    lemma_fundamental_div_mod_converse_div(1000 * g + 500, 1000, g, 500);
                };
            }
            let grow = len_d.round() as u8;
            self.grow_head(grow);
            self.shrink(grow);
        } else {
            proof {
                assert(c0 == 0 && c1 == 0);
            }
        }
    }

    /// The number of cells the body occupies.
    pub fn len(&self) -> (r: usize)
        ensures
            r == self.spec_body().len(),
    {
        self.body.len()
    }

    /// The body cell at index `i`, head first.
    pub fn body_cell(&self, i: usize) -> (r: Point)
        requires
            i < self.spec_body().len(),
        ensures
            r == self.spec_body()[i as int],
    {
        self.body[i]
    }

    /// Returns `true` if the body occupies the given cell.
    pub fn contains(&self, position: Point) -> (r: bool)
        ensures
            r == exists|k: int|
                0 <= k < self.spec_body().len() && #[trigger] self.spec_body()[k] == position,
    {
        let mut i: usize = 0;
        while i < self.body.len()
            invariant
                i <= self.body@.len(),
                forall|k: int| 0 <= k < i ==> #[trigger] self.body@[k] != position,
            decreases self.body@.len() - i,
        {
            let cell = self.body[i];
            if cell.x == position.x && cell.y == position.y {
                proof {
                    assert(self.spec_body()[i as int] == position);
                }
                return true;
            }
            proof {
                assert(cell.x != position.x || cell.y != position.y);
            }
            i = i + 1;
        }
        false
    }
}

} // verus!
