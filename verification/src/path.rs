//! Scripted motion: fragments of straight travel chained into a path.

use vstd::prelude::*;
use crate::coord::{Point, Speed2D, sqrt_millis, lemma_floor_sqrt_exists};
use crate::distance::{Distance, fits_distance};
use crate::duration::Duration;
use crate::speed::{Speed, scaled_millis, scale_millis_wide};
use vstd::arithmetic::div_mod::lemma_div_of0;

verus! {

/// The longest duration a single path fragment may have, in nanoseconds:
/// half the range, so that one fragment and one advance can never overflow
/// a nanosecond counter together.
pub const MAX_FRAGMENT_NANOS: u64 = 0x7FFF_FFFF_FFFF_FFFF;

/// The mathematical state of one fragment: a rate per axis, a duration and
/// the time already spent, all in milliunits and nanoseconds.
#[verifier::ext_equal]
pub struct FragState {
    /// Milliunits travelled on the X axis per `dx` nanoseconds.
    pub vx: int,
    /// The defining duration of the X axis rate, positive.
    pub dx: int,
    /// Milliunits travelled on the Y axis per `dy` nanoseconds.
    pub vy: int,
    /// The defining duration of the Y axis rate, positive.
    pub dy: int,
    /// The duration of the fragment.
    pub dur: int,
    /// The time already spent in the fragment.
    pub prog: int,
}

impl FragState {
    /// The travel of this fragment's speed over `t` nanoseconds.
    pub open spec fn travel(self, t: int) -> (int, int) {
        (scaled_millis(self.vx, t, self.dx), scaled_millis(self.vy, t, self.dy))
    }
}

/// The mathematical state of a path: the fragments still to come, a cursor,
/// whether the sequence repeats, the active fragment and the position at
/// which the active fragment started.
#[verifier::ext_equal]
pub struct PathState {
    /// The scripted fragments.
    pub frags: Seq<FragState>,
    /// The index of the next fragment to pull.
    pub idx: int,
    /// Whether the sequence starts over when exhausted.
    pub cyclic: bool,
    /// The fragment currently in progress, if any.
    pub cur: Option<FragState>,
    /// The position at the start of the active fragment, in milliunits.
    pub base: (int, int),
}

impl PathState {
    /// The current position: the base plus the partial travel of the active
    /// fragment.
    pub open spec fn pos(self) -> (int, int) {
        match self.cur {
            Some(f) => (self.base.0 + f.travel(f.prog).0, self.base.1 + f.travel(f.prog).1),
            None => self.base,
        }
    }

    /// The conditions under which advancing a path is well defined: the
    /// cursor is in range, rates have positive defining durations, stored
    /// fragments are fresh, and a repeating path has no zero-length
    /// fragment to spin on.
    pub open spec fn inv(self) -> bool {
        &&& 0 <= self.idx <= self.frags.len()
        &&& (self.cyclic && self.frags.len() > 0 ==> self.idx < self.frags.len())
        &&& (match self.cur {
            Some(f) => 0 <= f.prog <= f.dur && f.dx > 0 && f.dy > 0,
            None => if self.cyclic {
                self.frags.len() == 0
            } else {
                self.idx == self.frags.len()
            },
        })
        &&& (forall|i: int|
            0 <= i < self.frags.len() ==> (#[trigger] self.frags[i]).prog == 0
                && self.frags[i].dx > 0 && self.frags[i].dy > 0 && self.frags[i].dur >= 0)
        &&& (self.cyclic ==> forall|i: int|
            0 <= i < self.frags.len() ==> (#[trigger] self.frags[i]).dur >= 1)
    }

    /// Whether the active fragment sits exactly on its end.
    pub open spec fn boundary(self) -> int {
        match self.cur {
            Some(f) => if f.prog == f.dur {
                1int
            } else {
                0int
            },
            None => 0int,
        }
    }

    /// The fragments left before a finite path is exhausted; a repeating
    /// path never is.
    pub open spec fn left(self) -> int {
        if self.cyclic {
            0int
        } else {
            self.frags.len() - self.idx
        }
    }
}

/// The state after the active fragment `f` completes: the base advances by
/// the fragment's whole travel and the cursor pulls the next fragment, or
/// none when a finite path is exhausted.
pub open spec fn path_switch(s: PathState, f: FragState) -> PathState {
    let nb = (s.base.0 + f.travel(f.dur).0, s.base.1 + f.travel(f.dur).1);
    if s.idx < s.frags.len() {
        PathState {
            base: nb,
            cur: Some(s.frags[s.idx]),
            idx: if s.cyclic {
                (s.idx + 1) % (s.frags.len() as int)
            } else {
                s.idx + 1
            },
            ..s
        }
    } else {
        PathState { base: nb, cur: None, ..s }
    }
}

/// The state of a path after advancing it by `d` nanoseconds: time flows
/// into the active fragment; whatever spills over a fragment's end carries
/// into the next fragment, and a finite path that runs out of fragments
/// swallows the rest.
pub open spec fn path_advance(s: PathState, d: int) -> PathState
    decreases d, s.left(), s.boundary(),
        when s.inv() && d >= 0
{
    match s.cur {
        None => s,
        Some(f) => {
            let p2 = f.prog + d;
            if p2 <= f.dur {
                PathState { cur: Some(FragState { prog: p2, ..f }), ..s }
            } else {
                path_advance(path_switch(s, f), p2 - f.dur)
            }
        },
    }
}

/// Whether every position computed while advancing `s` by `d` nanoseconds
/// stays within the fixed-point range.
pub open spec fn path_advance_ok(s: PathState, d: int) -> bool
    decreases d, s.left(), s.boundary(),
        when s.inv() && d >= 0
{
    match s.cur {
        None => true,
        Some(f) => {
            let p2 = f.prog + d;
            if p2 <= f.dur {
                fits_distance(f.travel(p2).0) && fits_distance(f.travel(p2).1) && fits_distance(
                    s.base.0 + f.travel(p2).0,
                ) && fits_distance(s.base.1 + f.travel(p2).1)
            } else {
                let s2 = path_switch(s, f);
                fits_distance(f.travel(f.dur).0) && fits_distance(f.travel(f.dur).1)
                    && fits_distance(s2.base.0) && fits_distance(s2.base.1) && path_advance_ok(
                    s2,
                    p2 - f.dur,
                )
            }
        },
    }
}

/// Switching to the next fragment preserves the advancing conditions and
/// touches neither the script nor its repetition.
proof fn lemma_switch_inv(s: PathState, f: FragState)
    requires
        s.inv(),
        s.cur == Some(f),
    ensures
        path_switch(s, f).inv(),
        path_switch(s, f).frags == s.frags,
        path_switch(s, f).cyclic == s.cyclic,
{
    let s2 = path_switch(s, f);
    if s.idx < s.frags.len() {
        if s.cyclic {
            assert(0 <= (s.idx + 1) % (s.frags.len() as int) < s.frags.len());
        }
    }
}

/// Advancing a path by `a + b` nanoseconds ends exactly where advancing it
/// by `a` and then by `b` does: motion is independent of how a span of time
/// is split into frames.
pub proof fn lemma_advance_additive(s: PathState, a: int, b: int)
    requires
        s.inv(),
        a >= 0,
        b >= 0,
    ensures
        path_advance(path_advance(s, a), b) == path_advance(s, a + b),
    decreases a, s.left(), s.boundary(),
{
    match s.cur {
        None => {},
        Some(f) => {
            let p2 = f.prog + a;
            if p2 <= f.dur {
                let s1 = PathState { cur: Some(FragState { prog: p2, ..f }), ..s };
                assert(s1.inv());
                let q2 = p2 + b;
                if q2 <= f.dur {
                    assert(path_advance(s1, b) =~= path_advance(s, a + b));
                } else {
                    assert(path_switch(s1, FragState { prog: p2, ..f }) =~= path_switch(s, f));
                }
            } else {
                lemma_switch_inv(s, f);
                lemma_advance_additive(path_switch(s, f), p2 - f.dur, b);
            }
        },
    }
}

/// A `PathFragment` type to represent the progress along a straight motion
/// at some `Speed2D` for some `Duration`.
#[derive(Copy, Clone, Debug)]
pub struct PathFragment {
    /// The `Speed2D` of the motion.
    speed: Speed2D,
    /// The `Duration` of the `PathFragment`.
    duration: Duration,
    /// The elapsed `Duration` since the beginning of the motion.
    progress: Duration,
}

impl PathFragment {
    /// The progress never passes the fragment's end, the duration leaves
    /// room for one more advance, and both axis speeds are well formed.
    #[verifier::type_invariant]
    pub open spec fn wf(self) -> bool {
        &&& self.spec_progress().spec_nanos() <= self.spec_duration().spec_nanos()
        &&& self.spec_duration().spec_nanos() <= MAX_FRAGMENT_NANOS
        &&& self.spec_speed().x.wf()
        &&& self.spec_speed().y.wf()
    }

    /// The `Speed2D` of the motion.
    pub closed spec fn spec_speed(self) -> Speed2D {
        self.speed
    }

    /// The `Duration` of the fragment.
    pub closed spec fn spec_duration(self) -> Duration {
        self.duration
    }

    /// The elapsed `Duration` within the fragment.
    pub closed spec fn spec_progress(self) -> Duration {
        self.progress
    }

    /// The mathematical state of this fragment.
    pub open spec fn model(self) -> FragState {
        FragState {
            vx: self.spec_speed().x.spec_distance().value_millis(),
            dx: self.spec_speed().x.spec_duration().spec_nanos() as int,
            vy: self.spec_speed().y.spec_distance().value_millis(),
            dy: self.spec_speed().y.spec_duration().spec_nanos() as int,
            dur: self.spec_duration().spec_nanos() as int,
            prog: self.spec_progress().spec_nanos() as int,
        }
    }

    /// The net travel of the whole fragment, per axis in milliunits.
    pub open spec fn displacement(self) -> (int, int) {
        self.model().travel(self.model().dur)
    }

    /// The `Speed2D` of the motion.
    pub fn speed(&self) -> (r: Speed2D)
        ensures
            r == self.spec_speed(),
    {
        self.speed
    }

    /// The `Duration` of the fragment.
    pub fn duration(&self) -> (r: Duration)
        ensures
            r == self.spec_duration(),
    {
        self.duration
    }

    /// The elapsed `Duration` within the fragment.
    pub fn elapsed(&self) -> (r: Duration)
        ensures
            r == self.spec_progress(),
    {
        self.progress
    }

    /// Creates a new `PathFragment` from a `Speed2D` and a `Duration`.
    pub fn from_speed_and_duration(speed: Speed2D, duration: Duration) -> (r: Self)
        requires
            duration.spec_nanos() <= MAX_FRAGMENT_NANOS,
        ensures
            r.spec_speed() == speed,
            r.spec_duration() == duration,
            r.spec_progress().spec_nanos() == 0,
    {
        proof {
            use_type_invariant(speed.x);
            use_type_invariant(speed.y);
        }
        Self { speed, duration, progress: Duration::from_nanos(0) }
    }

    /// Creates a new `PathFragment` from a `Duration` and the `Point` to
    /// travel in it.  A zero `duration` denotes no motion and is rejected.
    pub fn from_duration_and_point(duration: Duration, point: Point) -> (r: Self)
        requires
            0 < duration.spec_nanos() <= MAX_FRAGMENT_NANOS,
        ensures
            r.spec_speed().x.spec_distance() == point.x,
            r.spec_speed().x.spec_duration() == duration,
            r.spec_speed().y.spec_distance() == point.y,
            r.spec_speed().y.spec_duration() == duration,
            r.spec_duration() == duration,
            r.spec_progress().spec_nanos() == 0,
    {
        let speed = Speed2D::new(Speed::new(point.x, duration), Speed::new(point.y, duration));
        Self::from_speed_and_duration(speed, duration)
    }

    /// Creates a new `PathFragment` from a `Speed2D` and the `Distance` to
    /// cover at it: the duration is the distance divided by the straight-line
    /// speed per second.  A speed of zero length is rejected.
    pub fn from_speed_and_distance(speed: Speed2D, distance: Distance) -> (r: Self)
        requires
            distance.value_millis() >= 0,
            fits_distance(speed.x.travel_millis(1_000_000_000)),
            fits_distance(speed.y.travel_millis(1_000_000_000)),
            fits_distance(sqrt_millis(
                speed.x.travel_millis(1_000_000_000) * speed.x.travel_millis(1_000_000_000)
                    + speed.y.travel_millis(1_000_000_000) * speed.y.travel_millis(
                    1_000_000_000,
                ),
            )),
            1 <= sqrt_millis(
                speed.x.travel_millis(1_000_000_000) * speed.x.travel_millis(1_000_000_000)
                    + speed.y.travel_millis(1_000_000_000) * speed.y.travel_millis(
                    1_000_000_000,
                ),
            ) >= 1,
        ensures
            r.spec_speed() == speed,
            r.spec_progress().spec_nanos() == 0,
            r.spec_duration().spec_nanos() == distance.value_millis() * 1_000_000_000
                / sqrt_millis(
                speed.x.travel_millis(1_000_000_000) * speed.x.travel_millis(1_000_000_000)
                    + speed.y.travel_millis(1_000_000_000) * speed.y.travel_millis(
                    1_000_000_000,
                ),
            ),
    {
        proof {
            use_type_invariant(distance);
        }
        let per_sec = speed.as_per_sec();
        proof {
            let sq = per_sec.len_sq_millis();
            let px = per_sec.x.value_millis();
            let py = per_sec.y.value_millis();
            assert(px * px >= 0 && py * py >= 0) by (nonlinear_arith);
            lemma_floor_sqrt_exists(sq);
            let w = sqrt_millis(sq);
            assert(sq < 32_768_000 * 32_768_000) by (nonlinear_arith)
                requires
                    sq < (w + 1) * (w + 1),
                    0 <= w <= 32_767_999,
            ;
        }
        let len = per_sec.length();
        proof {
            use_type_invariant(len);
        }
        let len_millis: u64 = len.as_units() as u64 * 1000 + len.as_millis_part() as u64;
        let dist_millis: u64 = (distance.as_units() as i64 * 1000 + distance.as_millis_part()
            as i64) as u64;
        let nanos: u64 = dist_millis * 1_000_000_000 / len_millis;
        proof {
            use_type_invariant(speed.x);
            use_type_invariant(speed.y);
        }
        Self { speed, duration: Duration::from_nanos(nanos), progress: Duration::from_nanos(0) }
    }

    /// Progresses the motion by a `Duration` and returns both the elapsed
    /// `Duration` effectively spent in this fragment and the extra
    /// `Duration`, if any.
    ///
    /// Time is conserved: the input duration is exactly the elapsed part
    /// plus the extra part, and the extra, when present, is strictly
    /// positive.
    pub fn progress(&mut self, duration: Duration) -> (r: (Duration, Option<Duration>))
        requires
            duration.spec_nanos() <= MAX_FRAGMENT_NANOS,
        ensures
            final(self).spec_speed() == old(self).spec_speed(),
            final(self).spec_duration() == old(self).spec_duration(),
            r.0.spec_nanos() + (match r.1 {
                Some(extra) => extra.spec_nanos(),
                None => 0nat,
            }) == duration.spec_nanos(),
            r.1 matches Some(extra) ==> extra.spec_nanos() > 0,
            old(self).spec_progress().spec_nanos() + duration.spec_nanos() <= old(
                self,
            ).spec_duration().spec_nanos() ==> (final(self).spec_progress().spec_nanos() == old(
                self,
            ).spec_progress().spec_nanos() + duration.spec_nanos() && r.0 == duration && r.1
                is None),
            old(self).spec_progress().spec_nanos() + duration.spec_nanos() > old(
                self,
            ).spec_duration().spec_nanos() ==> (final(self).spec_progress().spec_nanos() == 0
                && r.0.spec_nanos() == old(self).spec_duration().spec_nanos() - old(
                self,
            ).spec_progress().spec_nanos() && (r.1 matches Some(extra) && extra.spec_nanos()
                == old(self).spec_progress().spec_nanos() + duration.spec_nanos() - old(
                self,
            ).spec_duration().spec_nanos())),
    {
        proof {
            use_type_invariant(&*self);
        }
        let total = self.progress.add(duration);

        match total.checked_sub(self.duration) {
            Some(extra) => {
                if extra.is_zero() {
                    self.progress = total;
                    (duration, None)
                } else {
                    self.progress = Duration::from_nanos(0);
                    let elapsed = duration.sub(extra);
                    (elapsed, Some(extra))
                }
            },
            None => {
                self.progress = total;
                (duration, None)
            },
        }
    }

    /// Resets the progress, making the fragment ready for reuse.
    pub fn reset(&mut self)
        ensures
            final(self).spec_speed() == old(self).spec_speed(),
            final(self).spec_duration() == old(self).spec_duration(),
            final(self).spec_progress().spec_nanos() == 0,
    {
        proof {
            use_type_invariant(&*self);
        }
        self.progress = Duration::from_nanos(0);
    }
}

impl PartialEq for PathFragment {
    /// Two fragments are equal when they have made the same progress and
    /// their whole travels coincide: different speed and duration pairs can
    /// describe the same motion.
    fn eq(&self, other: &PathFragment) -> (r: bool) {
        proof {
            use_type_invariant(*self);
            use_type_invariant(*other);
            use_type_invariant(self.speed.x);
            use_type_invariant(self.speed.y);
            use_type_invariant(other.speed.x);
            use_type_invariant(other.speed.y);
        }
        let dsx = self.speed.x.distance();
        let dsy = self.speed.y.distance();
        let dox = other.speed.x.distance();
        let doy = other.speed.y.distance();
        proof {
            use_type_invariant(dsx);
            use_type_invariant(dsy);
            use_type_invariant(dox);
            use_type_invariant(doy);
        }
        let sxv: i64 = dsx.as_units() as i64 * 1000 + dsx.as_millis_part() as i64;
        let syv: i64 = dsy.as_units() as i64 * 1000 + dsy.as_millis_part() as i64;
        let oxv: i64 = dox.as_units() as i64 * 1000 + dox.as_millis_part() as i64;
        let oyv: i64 = doy.as_units() as i64 * 1000 + doy.as_millis_part() as i64;
        let sx = scale_millis_wide(sxv, self.duration.as_nanos(), self.speed.x.duration().as_nanos());
        let sy = scale_millis_wide(syv, self.duration.as_nanos(), self.speed.y.duration().as_nanos());
        let ox = scale_millis_wide(oxv, other.duration.as_nanos(), other.speed.x.duration().as_nanos());
        let oy = scale_millis_wide(oyv, other.duration.as_nanos(), other.speed.y.duration().as_nanos());

        self.progress == other.progress && sx == ox && sy == oy
    }
}

impl vstd::std_specs::cmp::PartialEqSpecImpl for PathFragment {
    open spec fn obeys_eq_spec() -> bool {
        true
    }

    open spec fn eq_spec(&self, other: &PathFragment) -> bool {
        self.spec_progress() == other.spec_progress() && self.displacement()
            == other.displacement()
    }
}

/// A speed travels nowhere in no time.
proof fn lemma_travel_zero(f: FragState)
    requires
        f.dx > 0,
        f.dy > 0,
    ensures
        f.travel(0) == (0int, 0int),
{
    lemma_div_of0(f.dx);
    lemma_div_of0(f.dy);
}

/// A `Path` type to represent the progress along a sequence of
/// `PathFragment`s, chained into continuous motion.
pub struct Path {
    /// The current position.
    pub position: Point,
    /// The scripted fragments.
    fragments: Vec<PathFragment>,
    /// The index of the next fragment to pull.
    index: usize,
    /// Whether the sequence starts over when exhausted.
    cyclic: bool,
    /// The fragment currently in progress.
    current: Option<PathFragment>,
    /// The position at which the current fragment started.
    base: Point,
}

impl Path {
    /// The mathematical state of this path.
    pub closed spec fn model(self) -> PathState {
        PathState {
            frags: self.fragments@.map_values(|f: PathFragment| f.model()),
            idx: self.index as int,
            cyclic: self.cyclic,
            cur: match self.current {
                Some(f) => Some(f.model()),
                None => None,
            },
            base: (self.base.x.value_millis(), self.base.y.value_millis()),
        }
    }

    /// The current position.
    pub closed spec fn spec_position(self) -> Point {
        self.position
    }

    /// A well-formed path can be advanced and its position field shows the
    /// position its mathematical state denotes.
    pub closed spec fn wf(self) -> bool {
        &&& self.model().inv()
        &&& self.spec_position().x.value_millis() == self.model().pos().0
        &&& self.spec_position().y.value_millis() == self.model().pos().1
    }

    /// The current position.
    pub fn position(&self) -> (r: Point)
        ensures
            r == self.spec_position(),
            self.wf() ==> r.x.value_millis() == self.model().pos().0 && r.y.value_millis()
                == self.model().pos().1,
    {
        self.position
    }

    /// The fragment currently in progress, if any.
    pub fn current(&self) -> (r: Option<PathFragment>)
        ensures
            r matches Some(f) ==> self.model().cur == Some(f.model()),
            r is None ==> self.model().cur is None,
    {
        self.current
    }

    /// Creates a new `Path` at the specified position that runs through the
    /// given `PathFragment`s once.
    pub fn new(position: Point, fragments: Vec<PathFragment>) -> (r: Path)
        requires
            forall|i: int|
                0 <= i < fragments@.len() ==> (#[trigger] fragments@[i]).spec_progress().spec_nanos()
                    == 0,
        ensures
            r.wf(),
            r.spec_position() == position,
            r.model().cyclic == false,
            r.model().frags == fragments@.map_values(|f: PathFragment| f.model()),
            r.model().base == (position.x.value_millis(), position.y.value_millis()),
            fragments@.len() > 0 ==> r.model().cur == Some(fragments@[0].model())
                && r.model().idx == 1,
            fragments@.len() == 0 ==> (r.model().cur is None) && r.model().idx == 0,
    {
        Self::build(position, fragments, false)
    }

    /// Creates a new `Path` at the specified position that cycles through
    /// the given `PathFragment`s endlessly.  Zero-length fragments would
    /// stall a cycling path and are rejected.
    pub fn new_cyclic(position: Point, fragments: Vec<PathFragment>) -> (r: Path)
        requires
            forall|i: int|
                0 <= i < fragments@.len() ==> (#[trigger] fragments@[i]).spec_progress().spec_nanos()
                    == 0,
            forall|i: int|
                0 <= i < fragments@.len() ==> (#[trigger] fragments@[i]).spec_duration().spec_nanos()
                    >= 1,
        ensures
            r.wf(),
            r.spec_position() == position,
            r.model().cyclic == true,
            r.model().frags == fragments@.map_values(|f: PathFragment| f.model()),
            r.model().base == (position.x.value_millis(), position.y.value_millis()),
            fragments@.len() > 0 ==> r.model().cur == Some(fragments@[0].model())
                && r.model().idx == 1int % (fragments@.len() as int),
            fragments@.len() == 0 ==> (r.model().cur is None) && r.model().idx == 0,
    {
        Self::build(position, fragments, true)
    }

    /// Builds a path, pulling the first fragment as the active one.
    fn build(position: Point, fragments: Vec<PathFragment>, cyclic: bool) -> (r: Path)
        requires
            forall|i: int|
                0 <= i < fragments@.len() ==> (#[trigger] fragments@[i]).spec_progress().spec_nanos()
                    == 0,
            cyclic ==> forall|i: int|
                0 <= i < fragments@.len() ==> (#[trigger] fragments@[i]).spec_duration().spec_nanos()
                    >= 1,
        ensures
            r.wf(),
            r.spec_position() == position,
            r.model().cyclic == cyclic,
            r.model().frags == fragments@.map_values(|f: PathFragment| f.model()),
            r.model().base == (position.x.value_millis(), position.y.value_millis()),
            fragments@.len() > 0 ==> r.model().cur == Some(fragments@[0].model())
                && r.model().idx == (if cyclic {
                1int % (fragments@.len() as int)
            } else {
                1int
            }),
            fragments@.len() == 0 ==> (r.model().cur is None) && r.model().idx == 0,
    {
        let ghost frags_view = fragments@;
        let mut i: usize = 0;
        while i < fragments.len()
            invariant
                fragments@ == frags_view,
                i <= fragments@.len(),
                forall|j: int| 0 <= j < i ==> (#[trigger] fragments@[j]).wf(),
            decreases fragments@.len() - i,
        {
            let f = fragments[i];
            proof {
                use_type_invariant(f);
            }
            i = i + 1;
        }

        let (current, index): (Option<PathFragment>, usize) = if fragments.len() > 0 {
            let first = fragments[0];
            proof {
                use_type_invariant(first);
            }
            if cyclic {
                (Some(first), 1 % fragments.len())
            } else {
                (Some(first), 1)
            }
        } else {
            (None, 0)
        };

        let r = Path { position, fragments, index, cyclic, current, base: position };
        proof {
            match r.model().cur {
                Some(f) => lemma_travel_zero(f),
                None => {},
            }
            assert(r.wf());
        }
        r
    }

    /// Advances the motion by a `Duration`: time flows into the current
    /// fragment; when a fragment completes, the overflow carries into the
    /// next one, and a finite path that runs out of fragments stops for any
    /// remaining duration.
    ///
    /// The end state depends only on the total duration: splitting a span
    /// of time into consecutive calls reaches the same position, as
    /// [`lemma_advance_additive`] states.
    pub fn advance(&mut self, duration: Duration)
        requires
            old(self).wf(),
            duration.spec_nanos() <= MAX_FRAGMENT_NANOS,
            path_advance_ok(old(self).model(), duration.spec_nanos() as int),
        ensures
            final(self).wf(),
            final(self).model() == path_advance(old(self).model(), duration.spec_nanos() as int),
            final(self).spec_position().x.value_millis() == path_advance(
                old(self).model(),
                duration.spec_nanos() as int,
            ).pos().0,
            final(self).spec_position().y.value_millis() == path_advance(
                old(self).model(),
                duration.spec_nanos() as int,
            ).pos().1,
    {
        let ghost s0 = old(self).model();
        let ghost d0 = duration.spec_nanos() as int;
        let mut remaining = duration;

        loop
            invariant_except_break
                self.wf(),
                remaining.spec_nanos() <= MAX_FRAGMENT_NANOS,
                path_advance(self.model(), remaining.spec_nanos() as int) == path_advance(s0, d0),
                path_advance_ok(self.model(), remaining.spec_nanos() as int),
            ensures
                self.wf(),
                self.model() == path_advance(s0, d0),
            decreases remaining.spec_nanos(), self.model().left(), self.model().boundary(),
        {
            if self.current.is_none() {
                // No more fragments: the rest of the duration is dropped.
                break ;
            }

            let ghost pre = *self;
            let mut f = self.current.unwrap();
            let ghost fm = f.model();
            let (elapsed, extra) = f.progress(remaining);

            match extra {
                None => {
                    // Still inside this fragment: the position is the
                    // fragment's start plus its partial travel, so a split
                    // duration accumulates exactly.
                    self.current = Some(f);
                    let delta = f.speed().mul_duration(f.elapsed());
                    self.position = self.base.add(delta);
                    proof {
                        let p2 = fm.prog + remaining.spec_nanos();
                        assert(self.model() =~= PathState {
                            cur: Some(FragState { prog: p2, ..fm }),
                            ..pre.model()
                        });
                    }
                    break ;
                },
                Some(rest) => {
                    // The fragment completed: move its start point by its
                    // whole travel and pull the next fragment; the overflow
                    // is the new duration to advance by.
                    let travelled = f.speed().mul_duration(f.duration());
                    self.base = self.base.add(travelled);
                    self.position = self.base;
                    if self.index < self.fragments.len() {
                        let next = self.fragments[self.index];
                        self.current = Some(next);
                        if self.cyclic {
                            self.index = (self.index + 1) % self.fragments.len();
                        } else {
                            self.index = self.index + 1;
                        }
                    } else {
                        self.current = None;
                    }
                    remaining = rest;
                    proof {
                        lemma_switch_inv(pre.model(), fm);
                        assert(self.model() =~= path_switch(pre.model(), fm));
                        match self.model().cur {
                            Some(g) => lemma_travel_zero(g),
                            None => {},
                        }
                        assert(self.wf());
                    }
                },
            }
        }
    }
}

} // verus!
