//! Motion core of a terminal snake game.
//!
//! The interesting problem this library solves is translating a continuous,
//! fractional-speed motion model onto a discrete per-frame render loop.  All
//! arithmetic is exact fixed-point / integer arithmetic: distances are whole
//! units plus milliunits, durations are whole nanoseconds, and the rational
//! step sequencer distributes `cells` steps over `frames` ticks exactly.
//!
//! Rendering, terminal setup and key handling are deliberately outside this
//! crate; a per-frame driver advances the entities once per frame and reads
//! the updated positions back.

use vstd::prelude::*;

mod coord;
mod direction;
mod distance;
mod duration;
mod food;
mod frame_stepper;
pub mod grid;
pub mod grid_snake;
mod hv_stepper;
mod menu;
mod path;
mod position;
pub mod screen;
mod snake;
mod speed;
mod stepper;
pub mod welcome;
mod world;

pub use coord::{is_floor_sqrt, sqrt_millis, Coord2D, Point, Speed2D};
pub use direction::{lemma_opposite_involution, Direction};
pub use distance::{fits_distance, round_millis, trunc_millis, Distance};
pub use duration::Duration;
pub use food::Food;
pub use frame_stepper::Stepper as FrameStepper;
pub use hv_stepper::HVStepper;
pub use menu::{Menu, MenuAction};
pub use path::{
    FragState,
    Path,
    PathFragment,
    PathState,
    MAX_FRAGMENT_NANOS,
    lemma_advance_additive,
    path_advance,
    path_advance_ok,
    path_switch,
};
pub use position::{Inside, Position};
pub use snake::Snake;
pub use speed::{scaled_millis, Speed};
pub use stepper::{lemma_steps_per_cycle, seq_shape, seq_sum, to_sequence, Stepper};
pub use welcome::Welcome;
pub use world::{Key, State, World};

verus! {

} // verus!
