//! The world: one snake, one piece of food, one update per frame.

use vstd::prelude::*;
use crate::coord::{Coord2D, Point, Speed2D};
use crate::direction::Direction;
use crate::distance::Distance;
use crate::duration::Duration;
use crate::food::Food;
use crate::path::{MAX_FRAGMENT_NANOS, Path, PathFragment, path_advance};
use crate::snake::Snake;
use crate::speed::Speed;

verus! {

/// What a finished frame means to the outer loop.
#[derive(Copy, Clone, Eq, PartialEq, Structural, Debug)]
pub enum State {
    /// The game goes on.
    Playing,
    /// The game is paused.
    Paused,
    /// The terminal was resized.
    Resized,
}

/// The keys the world reacts to, as plain values; the input layer maps the
/// terminal's key events onto them.
#[derive(Copy, Clone, Eq, PartialEq, Structural, Debug)]
pub enum Key {
    /// The up arrow.
    Up,
    /// The down arrow.
    Down,
    /// The left arrow.
    Left,
    /// The right arrow.
    Right,
    /// Any other key.
    Other,
}

/// The world: the board bounds, the frame delta, and the two moving
/// entities, which never share state and advance independently.
pub struct World {
    /// The board size.
    bounds: Point,
    /// The duration of one frame.
    delta: Duration,
    /// The snake.
    snake: Snake,
    /// The food.
    food: Food,
}

impl World {
    /// The board size.
    pub closed spec fn spec_bounds(self) -> Point {
        self.bounds
    }

    /// The duration of one frame.
    pub closed spec fn spec_delta(self) -> Duration {
        self.delta
    }

    /// The snake.
    pub closed spec fn spec_snake(self) -> Snake {
        self.snake
    }

    /// The food.
    pub closed spec fn spec_food(self) -> Food {
        self.food
    }

    /// The snake has a body, the food follows a well-formed path, and the
    /// frame delta leaves room in every duration counter.
    pub open spec fn wf(self) -> bool {
        &&& self.spec_snake().spec_body().len() >= 1
        &&& self.spec_food().wf()
        &&& self.spec_delta().spec_nanos() <= MAX_FRAGMENT_NANOS
    }

    /// Creates a new `World`: a snake at the origin heading right at ten
    /// units per second on each axis, and food two cells in, wandering a
    /// three-second square loop.
    pub fn new(bounds: Point, delta: Duration) -> (r: Self)
        requires
            delta.spec_nanos() <= MAX_FRAGMENT_NANOS,
        ensures
            r.wf(),
            r.spec_bounds() == bounds,
            r.spec_delta() == delta,
            r.spec_snake().spec_direction() == Direction::Right,
            r.spec_snake().spec_body().len() == 1,
    {
        let origin = Coord2D::new(Distance::from_units(0), Distance::from_units(0));
        let snake = Snake::new(
            origin,
            Direction::Right,
            Speed2D::from_per_sec(
                Coord2D::new(Distance::from_units(10), Distance::from_units(10)),
            ),
        );

        let leg = Duration::from_secs(3);
        let mut legs: Vec<PathFragment> = Vec::new();
        legs.push(
            PathFragment::from_duration_and_point(
                leg,
                Coord2D::new(Distance::from_units(3), Distance::from_units(0)),
            ),
        );
        legs.push(
            PathFragment::from_duration_and_point(
                leg,
                Coord2D::new(Distance::from_units(0), Distance::from_units(3)),
            ),
        );
        legs.push(
            PathFragment::from_duration_and_point(
                leg,
                Coord2D::new(Distance::from_units(-3), Distance::from_units(0)),
            ),
        );
        legs.push(
            PathFragment::from_duration_and_point(
                leg,
                Coord2D::new(Distance::from_units(0), Distance::from_units(-3)),
            ),
        );
        let path = Path::new_cyclic(origin, legs);
        let anchor = Coord2D::new(Distance::from_units(2), Distance::from_units(2));
        let food = Food::new(anchor, path);

        Self { bounds, delta, snake, food }
    }

    /// Steers the snake by a pressed key; any key that is not an arrow is
    /// ignored, and so is an attempted reversal.
    pub fn handle(&mut self, code: Key)
        ensures
            final(self).spec_bounds() == old(self).spec_bounds(),
            final(self).spec_delta() == old(self).spec_delta(),
            final(self).spec_food() == old(self).spec_food(),
            final(self).spec_snake().spec_body() == old(self).spec_snake().spec_body(),
            final(self).spec_snake().spec_position() == old(self).spec_snake().spec_position(),
            final(self).spec_snake().spec_speed() == old(self).spec_snake().spec_speed(),
            final(self).spec_snake().spec_direction() == (match code {
                Key::Up => if old(self).spec_snake().spec_direction() == Direction::Down {
                    old(self).spec_snake().spec_direction()
                } else {
                    Direction::Up
                },
                Key::Down => if old(self).spec_snake().spec_direction() == Direction::Up {
                    old(self).spec_snake().spec_direction()
                } else {
                    Direction::Down
                },
                Key::Left => if old(self).spec_snake().spec_direction() == Direction::Right {
                    old(self).spec_snake().spec_direction()
                } else {
                    Direction::Left
                },
                Key::Right => if old(self).spec_snake().spec_direction() == Direction::Left {
                    old(self).spec_snake().spec_direction()
                } else {
                    Direction::Right
                },
                Key::Other => old(self).spec_snake().spec_direction(),
            }),
    {
        match code {
            Key::Up => self.snake.set_direction(Direction::Up),
            Key::Down => self.snake.set_direction(Direction::Down),
            Key::Left => self.snake.set_direction(Direction::Left),
            Key::Right => self.snake.set_direction(Direction::Right),
            Key::Other => {},
        }
    }

    /// The conditions under which one frame's update stays within the
    /// fixed-point range for both entities.
    pub open spec fn update_ok(self) -> bool {
        &&& self.spec_snake().advance_ok(self.spec_delta().spec_nanos() as int)
        &&& self.spec_food().advance_ok(self.spec_delta().spec_nanos() as int)
    }

    /// Advances both entities by one frame delta.  They do not interact:
    /// each moves per its own contract.
    pub fn update(&mut self)
        requires
            old(self).wf(),
            old(self).update_ok(),
        ensures
            final(self).wf(),
            final(self).spec_bounds() == old(self).spec_bounds(),
            final(self).spec_delta() == old(self).spec_delta(),
            final(self).spec_snake().spec_position().x.value_millis() == old(self).spec_snake().moved_pos(old(self).spec_delta().spec_nanos() as int).0,
            final(self).spec_snake().spec_position().y.value_millis() == old(self).spec_snake().moved_pos(old(self).spec_delta().spec_nanos() as int).1,
            final(self).spec_snake().spec_body().len() == old(self).spec_snake().spec_body().len(),
            final(self).spec_food().spec_position().x.value_millis() == old(self).spec_food().spec_initial().x.value_millis() + path_advance(
                old(self).spec_food().spec_path().model(),
                old(self).spec_delta().spec_nanos() as int,
            ).pos().0,
            final(self).spec_food().spec_position().y.value_millis() == old(self).spec_food().spec_initial().y.value_millis() + path_advance(
                old(self).spec_food().spec_path().model(),
                old(self).spec_delta().spec_nanos() as int,
            ).pos().1,
    {
        self.snake.advance(self.delta);
        self.food.advance(self.delta);
    }

    /// The board size.
    pub fn bounds(&self) -> (r: Point)
        ensures
            r == self.spec_bounds(),
    {
        self.bounds
    }

    /// The snake, for rendering and collision checks.
    pub fn snake(&self) -> (r: &Snake)
        ensures
            r == self.spec_snake(),
    {
        &self.snake
    }

    /// The food, for rendering and pickup checks.
    pub fn food(&self) -> (r: &Food)
        ensures
            r == self.spec_food(),
    {
        &self.food
    }
}

} // verus!
