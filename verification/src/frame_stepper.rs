//! A frame-counting stepper bound to the game's frame rate.

use vstd::prelude::*;
use crate::screen::FPS;
use crate::stepper::to_sequence;
use vstd::arithmetic::div_mod::{lemma_fundamental_div_mod, lemma_mod_division_less_than_divisor};

verus! {

/// A simpler stepper that fires a step whenever its frame counter sits at
/// the start of the current wait, pacing `speed` steps per [`FPS`] frames.
pub struct Stepper {
    /// The sequence of frames to wait on each step.
    steps: Vec<u64>,
    /// The current index in the sequence.
    index: usize,
    /// The frames counted within the current wait.
    step: u64,
}

impl Stepper {
    /// The wait sequence this stepper runs through.
    pub closed spec fn waits(self) -> Seq<u64> {
        self.steps@
    }

    /// The current index in the sequence.
    pub closed spec fn spec_index(self) -> int {
        self.index as int
    }

    /// The frames counted within the current wait.
    pub closed spec fn spec_step(self) -> int {
        self.step as int
    }

    /// The cursor is inside a non-empty sequence of positive waits and the
    /// frame counter never runs past the current wait.
    pub open spec fn wf(self) -> bool {
        &&& self.waits().len() >= 1
        &&& self.spec_index() < self.waits().len()
        &&& (forall|i: int| 0 <= i < self.waits().len() ==> (#[trigger] self.waits()[i]) >= 1)
        &&& self.spec_step() <= self.waits()[self.spec_index()]
    }

    /// Returns a new `Stepper` pacing `speed` steps per [`FPS`] frames.
    /// A zero speed denotes no motion, a speed above the frame rate cannot
    /// be paced by frame counting; both are rejected.
    pub fn new(speed: u64) -> (r: Self)
        requires
            1 <= speed <= FPS,
        ensures
            r.wf(),
            r.waits().len() == speed,
            r.spec_index() == 0,
            r.spec_step() == 0,
    {
        let steps = to_sequence(speed, FPS);
        let r = Self { steps, index: 0, step: 0 };
        proof {
            let f = FPS as int;
            let sp = speed as int;
            lemma_fundamental_div_mod(f, sp);
            lemma_mod_division_less_than_divisor(f, sp);
            assert(f / sp >= 1) by (nonlinear_arith)
                requires
                    f == 60,
                    1 <= sp <= 60,
                    sp * (f / sp) + f % sp == f,
                    0 <= f % sp < sp,
            ;
        }
        r
    }

    /// Counts one frame and returns `true` if a step fires this frame: at
    /// the first frame of each wait.
    pub fn step(&mut self) -> (r: bool)
        requires
            old(self).wf(),
        ensures
            final(self).wf(),
            final(self).waits() == old(self).waits(),
            r == (old(self).spec_step() % (old(self).waits()[old(self).spec_index()] as int) == 0),
            old(self).spec_step() < old(self).waits()[old(self).spec_index()] ==> final(self).spec_index() == old(self).spec_index() && final(self).spec_step() == old(self).spec_step() + 1,
            old(self).spec_step() == old(self).waits()[old(self).spec_index()] ==> final(self).spec_step() == 0 && final(self).spec_index() == (old(self).spec_index() + 1) % (
            old(self).waits().len() as int),
    {
        let mut fired = false;

        if self.step % self.steps[self.index] == 0 {
            fired = true;
        }

        let len = self.steps.len();
        if self.step < self.steps[self.index] {
            self.step = self.step + 1;
        } else {
            self.step = 0;
            self.index = (self.index + 1) % len;
            proof {
                lemma_mod_division_less_than_divisor(
                    (old(self).spec_index() + 1) as int,
                    self.steps@.len() as int,
                );
            }
        }

        fired
    }
}

} // verus!
