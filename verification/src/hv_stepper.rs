//! A pair of steppers, one per axis.

use vstd::prelude::*;
use crate::direction::Direction;
use crate::stepper::Stepper;

verus! {

/// A pair of independent `Stepper`s, one for horizontal and one for
/// vertical motion, selected by the current `Direction` each frame.
pub struct HVStepper {
    /// Paces the steps while moving left or right.
    horizontal: Stepper,
    /// Paces the steps while moving up or down.
    vertical: Stepper,
}

impl HVStepper {
    /// The stepper that paces horizontal motion.
    pub closed spec fn spec_horizontal(self) -> Stepper {
        self.horizontal
    }

    /// The stepper that paces vertical motion.
    pub closed spec fn spec_vertical(self) -> Stepper {
        self.vertical
    }

    /// Both steppers are well formed.
    pub open spec fn wf(self) -> bool {
        self.spec_horizontal().wf() && self.spec_vertical().wf()
    }

    /// Returns a new `HVStepper` emitting `horizontal_cells` steps per
    /// `frames` horizontal frames and `vertical_cells` per `frames` vertical
    /// frames.  Zero cells or frames denote no motion at all and are
    /// rejected.
    pub fn new(horizontal_cells: u64, vertical_cells: u64, frames: u64) -> (r: Self)
        requires
            1 <= horizontal_cells <= 0x4000_0000_0000_0000,
            1 <= vertical_cells <= 0x4000_0000_0000_0000,
            frames >= 1,
        ensures
            r.wf(),
            r.spec_horizontal().spec_cells() == horizontal_cells,
            r.spec_horizontal().spec_frames() == frames,
            r.spec_horizontal().spec_calls() == 0,
            r.spec_horizontal().spec_emitted() == 0,
            r.spec_vertical().spec_cells() == vertical_cells,
            r.spec_vertical().spec_frames() == frames,
            r.spec_vertical().spec_calls() == 0,
            r.spec_vertical().spec_emitted() == 0,
    {
        let horizontal = Stepper::new(horizontal_cells, frames);
        let vertical = Stepper::new(vertical_cells, frames);

        Self { horizontal, vertical }
    }

    /// Progresses the stepper of the axis the `direction` lies on by one
    /// frame and returns its step count; the other axis is untouched.
    pub fn next(&mut self, direction: Direction) -> (steps: u64)
        requires
            old(self).wf(),
        ensures
            final(self).wf(),
            direction.spec_is_horizontal() ==> {
                &&& final(self).spec_vertical() == old(self).spec_vertical()
                &&& final(self).spec_horizontal().waits() == old(self).spec_horizontal().waits()
                &&& final(self).spec_horizontal().spec_calls() == old(
                    self,
                ).spec_horizontal().spec_calls() + 1
                &&& final(self).spec_horizontal().spec_emitted() == old(
                    self,
                ).spec_horizontal().spec_emitted() + steps
            },
            !direction.spec_is_horizontal() ==> {
                &&& final(self).spec_horizontal() == old(self).spec_horizontal()
                &&& final(self).spec_vertical().waits() == old(self).spec_vertical().waits()
                &&& final(self).spec_vertical().spec_calls() == old(
                    self,
                ).spec_vertical().spec_calls() + 1
                &&& final(self).spec_vertical().spec_emitted() == old(
                    self,
                ).spec_vertical().spec_emitted() + steps
            },
    {
        if direction.is_horizontal() {
            self.horizontal.next()
        } else {
            self.vertical.next()
        }
    }
}

} // verus!
