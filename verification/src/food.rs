//! Food that wanders along a scripted path.

use vstd::prelude::*;
use crate::coord::Point;
use crate::distance::fits_distance;
use crate::duration::Duration;
use crate::path::{MAX_FRAGMENT_NANOS, Path, path_advance, path_advance_ok};

verus! {

/// A piece of food: an anchor `Point` plus a `Path` that carries it around.
/// Its position is always the anchor offset by the path's own position.
pub struct Food {
    /// The anchor the path's travel is measured from.
    initial: Point,
    /// The current position: the anchor plus the path offset.
    position: Point,
    /// The scripted motion.
    path: Path,
}

impl Food {
    /// The anchor point.
    pub closed spec fn spec_initial(self) -> Point {
        self.initial
    }

    /// The current position.
    pub closed spec fn spec_position(self) -> Point {
        self.position
    }

    /// The scripted motion.
    pub closed spec fn spec_path(self) -> Path {
        self.path
    }

    /// The path can be advanced and the position is the anchor offset by
    /// the path's position.
    pub open spec fn wf(self) -> bool {
        &&& self.spec_path().wf()
        &&& self.spec_position().x.value_millis() == self.spec_initial().x.value_millis()
            + self.spec_path().model().pos().0
        &&& self.spec_position().y.value_millis() == self.spec_initial().y.value_millis()
            + self.spec_path().model().pos().1
    }

    /// Creates a new `Food` at `position`, carried around by `path`.
    pub fn new(position: Point, path: Path) -> (r: Self)
        requires
            path.wf(),
            fits_distance(position.x.value_millis() + path.model().pos().0),
            fits_distance(position.y.value_millis() + path.model().pos().1),
        ensures
            r.wf(),
            r.spec_initial() == position,
            r.spec_path() == path,
    {
        let offset = path.position();
        let at = position.add(offset);
        Self { initial: position, position: at, path }
    }

    /// The current position.
    pub fn position(&self) -> (r: Point)
        ensures
            r == self.spec_position(),
    {
        self.position
    }

    /// The conditions under which one update stays within the fixed-point
    /// range: every position the path computes fits, and so does the
    /// anchored result.
    pub open spec fn advance_ok(self, d: int) -> bool {
        &&& path_advance_ok(self.spec_path().model(), d)
        &&& fits_distance(
            self.spec_initial().x.value_millis() + path_advance(self.spec_path().model(), d).pos().0,
        )
        &&& fits_distance(
            self.spec_initial().y.value_millis() + path_advance(self.spec_path().model(), d).pos().1,
        )
    }

    /// Advances the food along its path by a `Duration`.
    pub fn advance(&mut self, duration: Duration)
        requires
            old(self).wf(),
            duration.spec_nanos() <= MAX_FRAGMENT_NANOS,
            old(self).advance_ok(duration.spec_nanos() as int),
        ensures
            final(self).wf(),
            final(self).spec_initial() == old(self).spec_initial(),
            final(self).spec_path().model() == path_advance(
                old(self).spec_path().model(),
                duration.spec_nanos() as int,
            ),
            final(self).spec_position().x.value_millis() == old(self).spec_initial().x.value_millis() + path_advance(
                old(self).spec_path().model(),
                duration.spec_nanos() as int,
            ).pos().0,
            final(self).spec_position().y.value_millis() == old(self).spec_initial().y.value_millis() + path_advance(
                old(self).spec_path().model(),
                duration.spec_nanos() as int,
            ).pos().1,
    {
        self.path.advance(duration);
        let offset = self.path.position();
        self.position = self.initial.add(offset);
    }
}

} // verus!
