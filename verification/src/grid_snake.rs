//! The snake, moving cell by cell at a frame-counted pace.

use vstd::prelude::*;
use crate::direction::Direction;
use crate::position::Position;

verus! {

/// A snake that moves in whole cells: each frame the update counts toward
/// the per-axis wait, and when the wait elapses the head advances by one
/// cell.
pub struct Snake {
    /// The occupied cells, head first.
    body: Vec<Position>,
    /// The direction of travel.
    direction: Direction,
    /// The waits, in frames, for horizontal and vertical motion.
    speed: (u64, u64),
    /// The frames counted since the last step.
    frames: u64,
}

impl Snake {
    /// The occupied cells, head first.
    pub closed spec fn spec_body(self) -> Seq<Position> {
        self.body@
    }

    /// The direction of travel.
    pub closed spec fn spec_direction(self) -> Direction {
        self.direction
    }

    /// The waits, in frames, for horizontal and vertical motion.
    pub closed spec fn spec_speed(self) -> (u64, u64) {
        self.speed
    }

    /// The frames counted since the last step.
    pub closed spec fn spec_frames(self) -> int {
        self.frames as int
    }

    /// The body is never empty and both waits are positive.
    pub open spec fn wf(self) -> bool {
        &&& self.spec_body().len() >= 1
        &&& self.spec_speed().0 >= 1
        &&& self.spec_speed().1 >= 1
    }

    /// The cell one step ahead of the head.
    pub open spec fn spec_next_head(self) -> (int, int) {
        (
            self.spec_body()[0].spec_x() + self.spec_direction().spec_unit().0,
            self.spec_body()[0].spec_y() + self.spec_direction().spec_unit().1,
        )
    }

    /// The head stays on the grid after one more step.
    pub open spec fn step_ok(self) -> bool {
        &&& i32::MIN <= self.spec_next_head().0 <= i32::MAX
        &&& i32::MIN <= self.spec_next_head().1 <= i32::MAX
    }

    /// Creates a new `Snake` at `position`, heading `direction`, waiting
    /// `speed.0` frames per horizontal and `speed.1` frames per vertical
    /// cell.  Zero waits denote no pace at all and are rejected.
    pub fn new(position: Position, direction: Direction, speed: (u64, u64)) -> (r: Self)
        requires
            speed.0 >= 1,
            speed.1 >= 1,
        ensures
            r.wf(),
            r.spec_body() == seq![position],
            r.spec_direction() == direction,
            r.spec_speed() == speed,
            r.spec_frames() == 0,
    {
        let mut body: Vec<Position> = Vec::new();
        body.push(position);
        proof {
            assert(body@ =~= seq![position]);
        }

        Self { body, direction, speed, frames: 0 }
    }

    /// Changes the direction of travel; an attempted reversal is silently
    /// ignored.
    pub fn set_direction(&mut self, direction: Direction)
        ensures
            final(self).spec_direction() == (if old(self).spec_direction().spec_opposite()
                == direction {
                old(self).spec_direction()
            } else {
                direction
            }),
            final(self).spec_body() == old(self).spec_body(),
            final(self).spec_speed() == old(self).spec_speed(),
            final(self).spec_frames() == old(self).spec_frames(),
    {
        if !(self.direction.opposite() == direction) {
            self.direction = direction;
        }
    }

    /// Grows the head by one cell along the current direction.
    pub fn grow(&mut self)
        requires
            old(self).wf(),
            old(self).step_ok(),
        ensures
            final(self).wf(),
            final(self).spec_body().len() == old(self).spec_body().len() + 1,
            final(self).spec_body()[0].spec_x() == old(self).spec_next_head().0,
            final(self).spec_body()[0].spec_y() == old(self).spec_next_head().1,
            forall|k: int|
                1 <= k < final(self).spec_body().len() ==> final(self).spec_body()[k] == old(
                    self,
                ).spec_body()[k - 1],
            final(self).spec_direction() == old(self).spec_direction(),
            final(self).spec_speed() == old(self).spec_speed(),
            final(self).spec_frames() == old(self).spec_frames(),
    {
        let next = self.next_head();
        self.body.insert(0, next);
    }

    /// Moves one cell: the head grows and the tail is dropped, keeping the
    /// length.
    pub fn step(&mut self)
        requires
            old(self).wf(),
            old(self).step_ok(),
        ensures
            final(self).wf(),
            final(self).spec_body().len() == old(self).spec_body().len(),
            final(self).spec_body()[0].spec_x() == old(self).spec_next_head().0,
            final(self).spec_body()[0].spec_y() == old(self).spec_next_head().1,
            forall|k: int|
                1 <= k < final(self).spec_body().len() ==> final(self).spec_body()[k] == old(
                    self,
                ).spec_body()[k - 1],
            final(self).spec_direction() == old(self).spec_direction(),
            final(self).spec_speed() == old(self).spec_speed(),
            final(self).spec_frames() == old(self).spec_frames(),
    {
        self.grow();
        self.body.pop();
    }

    /// Counts one frame toward the wait of the current axis and, when the
    /// wait has fully elapsed, returns the cell the head should move to.
    pub fn update(&mut self) -> (r: Option<Position>)
        requires
            old(self).wf(),
            old(self).step_ok(),
            old(self).spec_frames() < u64::MAX,
        ensures
            final(self).wf(),
            final(self).spec_body() == old(self).spec_body(),
            final(self).spec_direction() == old(self).spec_direction(),
            final(self).spec_speed() == old(self).spec_speed(),
            ({
                let wait = if old(self).spec_direction().spec_is_horizontal() {
                    old(self).spec_speed().0
                } else {
                    old(self).spec_speed().1
                };
                if old(self).spec_frames() % (wait as int) == 0 {
                    &&& (r matches Some(p) && p.spec_x() == old(self).spec_next_head().0
                        && p.spec_y() == old(self).spec_next_head().1)
                    &&& final(self).spec_frames() == 1
                } else {
                    &&& r is None
                    &&& final(self).spec_frames() == old(self).spec_frames() + 1
                }
            }),
    {
        let mut position: Option<Position> = None;
        let speed: u64 = if self.direction.is_horizontal() {
            self.speed.0
        } else {
            self.speed.1
        };

        if self.frames % speed == 0 {
            position = Some(self.next_head());
            self.frames = 0;
        }

        self.frames = self.frames + 1;

        position
    }

    /// The cell the head occupies.
    pub fn head(&self) -> (r: Position)
        requires
            self.spec_body().len() >= 1,
        ensures
            r == self.spec_body()[0],
    {
        self.body[0]
    }

    /// The cell one step ahead of the head.
    fn next_head(&self) -> (r: Position)
        requires
            self.spec_body().len() >= 1,
            self.step_ok(),
        ensures
            r.spec_x() == self.spec_next_head().0,
            r.spec_y() == self.spec_next_head().1,
    {
        self.head().step(self.direction)
    }
}

} // verus!
