//! The rational step sequencer.
//!
//! A `Stepper` converts a rational "cells per frames" ratio into a
//! deterministic integer sequence: ticking it once per frame emits, over any
//! run of `frames` ticks, exactly `cells` discrete steps, spread as evenly
//! as the ratio allows.

use vstd::prelude::*;
use vstd::arithmetic::div_mod::{
    lemma_fundamental_div_mod,
    lemma_mod_division_less_than_divisor,
    lemma_mod_self_0,
    lemma_small_mod,
};

verus! {

/// The sum of a sequence of waits.
pub open spec fn seq_sum(s: Seq<u64>) -> int
    decreases s.len(),
{
    if s.len() == 0 {
        0
    } else {
        seq_sum(s.drop_last()) + s.last()
    }
}

/// Appending a wait adds it to the sum.
pub proof fn lemma_sum_push(s: Seq<u64>, x: u64)
    ensures
        seq_sum(s.push(x)) == seq_sum(s) + x,
{
    assert(s.push(x).drop_last() =~= s);
}

/// A sum of unsigned waits is never negative.
pub proof fn lemma_sum_nonneg(s: Seq<u64>)
    ensures
        seq_sum(s) >= 0,
    decreases s.len(),
{
    if s.len() > 0 {
        lemma_sum_nonneg(s.drop_last());
    }
}

/// Extending a prefix by one entry adds that entry to the prefix sum.
pub proof fn lemma_sum_take_succ(s: Seq<u64>, i: int)
    requires
        0 <= i < s.len(),
    ensures
        seq_sum(s.take(i + 1)) == seq_sum(s.take(i)) + s[i],
{
    assert(s.take(i + 1).drop_last() =~= s.take(i));
    assert(s.take(i + 1).last() == s[i]);
}

/// Prefix sums grow with the prefix.
pub proof fn lemma_prefix_mono(s: Seq<u64>, i: int, j: int)
    requires
        0 <= i <= j <= s.len(),
    ensures
        seq_sum(s.take(i)) <= seq_sum(s.take(j)),
    decreases j - i,
{
    if i < j {
        lemma_sum_take_succ(s, j - 1);
        lemma_prefix_mono(s, i, j - 1);
        assert(s[j - 1] >= 0);
    }
}

/// A prefix sum plus the entry after it never exceeds the total.
pub proof fn lemma_prefix_entry_bound(s: Seq<u64>, i: int)
    requires
        0 <= i < s.len(),
    ensures
        seq_sum(s.take(i)) + s[i] <= seq_sum(s),
        seq_sum(s.take(i)) >= 0,
{
    lemma_sum_take_succ(s, i);
    lemma_prefix_mono(s, i + 1, s.len() as int);
    lemma_sum_nonneg(s.take(i));
    assert(s.take(s.len() as int) =~= s);
}

/// A sequence with a positive sum holds a positive entry.
pub proof fn lemma_sum_pos_exists(s: Seq<u64>)
    requires
        seq_sum(s) >= 1,
    ensures
        exists|j: int| 0 <= j < s.len() && s[j] >= 1,
    decreases s.len(),
{
    if s.len() > 0 {
        if s.last() >= 1 {
            assert(s[s.len() - 1] >= 1);
        } else {
            lemma_sum_pos_exists(s.drop_last());
            let j = choose|j: int| 0 <= j < s.drop_last().len() && s.drop_last()[j] >= 1;
            assert(s[j] >= 1);
        }
    }
}

/// Sequences a rational `cells / frames` ratio into a `Vec` of waits: entry
/// `i` is the number of frames the stepper sits on step `i` before firing
/// the next one.
///
/// The sequence has exactly `cells` entries summing to exactly `frames`, and
/// every entry is `frames / cells` or `frames / cells + 1`, so the steps are
/// spread as evenly as the ratio allows.  A zero `cells` or `frames` denotes
/// no motion at all and is rejected.
pub fn to_sequence(cells: u64, frames: u64) -> (r: Vec<u64>)
    requires
        1 <= cells <= 0x4000_0000_0000_0000,
        frames >= 1,
    ensures
        r@.len() == cells,
        seq_sum(r@) == frames,
        forall|i: int|
            0 <= i < r@.len() ==> (r@[i] == frames / cells || r@[i] == frames / cells + 1),
        frames % cells == 0 ==> forall|i: int| 0 <= i < r@.len() ==> r@[i] == frames / cells,
{
    let mut vec: Vec<u64> = Vec::with_capacity(cells as usize);

    proof {
        lemma_fundamental_div_mod(frames as int, cells as int);
    }

    // When `frames` is a multiple of `cells`, every step waits the same
    // whole number of frames.
    if frames % cells == 0 {
        let wait: u64 = frames / cells;
        let mut k: u64 = 0;
        while k < cells
            invariant
                k <= cells,
                vec@.len() == k,
                seq_sum(vec@) == k * wait,
                wait == frames / cells,
                forall|i: int| 0 <= i < vec@.len() ==> vec@[i] == wait,
            decreases cells - k,
        {
            proof {
                lemma_sum_push(vec@, wait);
                assert((k + 1) * wait == k * wait + wait) by (nonlinear_arith);
            }
            vec.push(wait);
            k = k + 1;
        }
        proof {
            assert(cells * (frames / cells) == (frames / cells) * cells) by (nonlinear_arith);
        }
        return vec;
    }

    // Otherwise the waits alternate between the two whole numbers nearest
    // the exact ratio: interleave the rarer wait with runs of the more
    // frequent one, then pad with the more frequent one.
    let lower: u64 = frames / cells;
    proof {
        lemma_mod_division_less_than_divisor(frames as int, cells as int);
        assert(cells * lower <= frames);
        assert(frames % cells < cells);
        assert(lower < u64::MAX) by (nonlinear_arith)
            requires
                cells >= 2,
                frames <= u64::MAX,
                cells * lower <= frames,
                lower >= 0,
        ;
    }
    let upper: u64 = lower + 1;
    let upper_total: u64 = frames - (cells * lower);
    let lower_total: u64 = cells - upper_total;

    let (ratio, more, less, less_total): (u64, u64, u64, u64) = if upper_total > lower_total {
        (upper_total / lower_total, upper, lower, lower_total)
    } else {
        (lower_total / upper_total, lower, upper, upper_total)
    };

    proof {
        if upper_total > lower_total {
            lemma_fundamental_div_mod(upper_total as int, lower_total as int);
            lemma_mod_division_less_than_divisor(upper_total as int, lower_total as int);
            assert(lower_total * ratio <= upper_total);
            assert(less_total * (1 + ratio) <= cells && ratio * more <= frames && less + ratio
                * more <= frames) by (nonlinear_arith)
                requires
                    lower_total >= 1,
                    upper_total >= 1,
                    lower >= 0,
                    ratio >= 0,
                    cells == lower_total + upper_total,
                    upper_total <= cells,
                    frames == cells * lower + upper_total,
                    upper == lower + 1,
                    lower_total * ratio <= upper_total,
                    less_total == lower_total,
                    less == lower,
                    more == upper,
            ;
        } else {
            lemma_fundamental_div_mod(lower_total as int, upper_total as int);
            lemma_mod_division_less_than_divisor(lower_total as int, upper_total as int);
            assert(upper_total * ratio <= lower_total);
            assert(less_total * (1 + ratio) <= cells && ratio * more <= frames && less + ratio
                * more <= frames) by (nonlinear_arith)
                requires
                    lower_total >= 1,
                    upper_total >= 1,
                    lower >= 0,
                    ratio >= 0,
                    cells == lower_total + upper_total,
                    frames == cells * lower + upper_total,
                    upper == lower + 1,
                    upper_total * ratio <= lower_total,
                    less_total == upper_total,
                    less == upper,
                    more == lower,
            ;
        }
    }

    let mut k: u64 = 0;
    while k < less_total
        invariant
            k <= less_total,
            vec@.len() == k * (1 + ratio),
            seq_sum(vec@) == k * (less + ratio * more),
            less_total * (1 + ratio) <= cells,
            less == frames / cells || less == frames / cells + 1,
            more == frames / cells || more == frames / cells + 1,
            ratio * more <= frames,
            less + ratio * more <= frames,
            forall|i: int|
                0 <= i < vec@.len() ==> (vec@[i] == frames / cells || vec@[i] == frames / cells
                    + 1),
        decreases less_total - k,
    {
        proof {
            lemma_sum_push(vec@, less);
            assert((k + 1) * (1 + ratio) == k * (1 + ratio) + 1 + ratio && (k + 1) * (less + ratio
                * more) == k * (less + ratio * more) + less + ratio * more) by (nonlinear_arith);
            assert(k * (1 + ratio) + 1 + ratio <= less_total * (1 + ratio)) by (nonlinear_arith)
                requires
                    k < less_total,
                    ratio >= 0,
            ;
            assert(k * (less + ratio * more) <= frames * less_total) by (nonlinear_arith)
                requires
                    0 <= k <= less_total,
                    0 <= less + ratio * more <= frames,
            ;
        }
        vec.push(less);
        let mut j: u64 = 0;
        while j < ratio
            invariant
                j <= ratio,
                vec@.len() == k * (1 + ratio) + 1 + j,
                seq_sum(vec@) == k * (less + ratio * more) + less + j * more,
                k < less_total,
                less_total * (1 + ratio) <= cells,
                less == frames / cells || less == frames / cells + 1,
                more == frames / cells || more == frames / cells + 1,
                ratio * more <= frames,
                less + ratio * more <= frames,
                k * (less + ratio * more) <= frames * less_total,
                forall|i: int|
                    0 <= i < vec@.len() ==> (vec@[i] == frames / cells || vec@[i] == frames
                        / cells + 1),
            decreases ratio - j,
        {
            proof {
                lemma_sum_push(vec@, more);
                assert((j + 1) * more == j * more + more && j * more <= ratio * more)
                    by (nonlinear_arith)
                    requires
                        0 <= j < ratio,
                        more >= 0,
                ;
            }
            vec.push(more);
            j = j + 1;
        }
        k = k + 1;
    }

    proof {
        assert(less_total * (1 + ratio) == less_total + less_total * ratio && less_total * (less
            + ratio * more) == less_total * less + (less_total * ratio) * more)
            by (nonlinear_arith);
        lemma_sum_nonneg(vec@);
    }

    while (vec.len() as u64) < cells
        invariant
            vec@.len() <= cells,
            seq_sum(vec@) == less_total * less + (vec@.len() - less_total) * more,
            vec@.len() >= less_total,
            more == frames / cells || more == frames / cells + 1,
            less == frames / cells || less == frames / cells + 1,
            forall|i: int|
                0 <= i < vec@.len() ==> (vec@[i] == frames / cells || vec@[i] == frames / cells
                    + 1),
        decreases cells - vec@.len(),
    {
        proof {
            lemma_sum_push(vec@, more);
            assert((vec@.len() + 1 - less_total) * more == (vec@.len() - less_total) * more
                + more) by (nonlinear_arith);
        }
        vec.push(more);
    }

    proof {
        // Both arrangements cover `lower_total` lower waits and
        // `upper_total` upper waits, which sum to `frames` exactly.
        assert(seq_sum(vec@) == frames) by (nonlinear_arith)
            requires
                seq_sum(vec@) == less_total * less + (cells - less_total) * more,
                (less_total == lower_total && less == lower && more == upper) || (less_total
                    == upper_total && less == upper && more == lower),
                upper == lower + 1,
                upper_total == frames - cells * lower,
                lower_total == cells - upper_total,
                cells * lower <= frames,
        ;
    }

    vec
}

/// The shapes `to_sequence` produces: either every wait is at least one
/// frame, or the step rate is faster than the frame rate and every wait is
/// at most one frame.
pub open spec fn seq_shape(s: Seq<u64>) -> bool {
    (forall|i: int| 0 <= i < s.len() ==> s[i] >= 1) || (forall|i: int|
        0 <= i < s.len() ==> s[i] <= 1)
}

/// Emits `step`s at the rate of a rational number — the speed.
///
/// Ticking a `Stepper` once per frame with [`Stepper::next`] moves an object
/// at `cells` grid steps per `frames` frames.  The rate may be greater than
/// one: a single frame can then emit several steps at once.
pub struct Stepper {
    /// The sequence of frames to wait on each step.
    sequence: Vec<u64>,
    /// The number of frames spent waiting on the current step.
    progress: u64,
    /// The current index in the sequence.
    index: usize,
    /// How often `next` was called.
    calls: Ghost<nat>,
    /// The total number of steps emitted.
    emitted: Ghost<nat>,
    /// How many full cycles through the sequence are complete.
    cycles: Ghost<nat>,
}

impl Stepper {
    /// The wait sequence this stepper runs through.
    pub closed spec fn waits(self) -> Seq<u64> {
        self.sequence@
    }

    /// The number of steps per cycle.
    pub open spec fn spec_cells(self) -> int {
        self.waits().len() as int
    }

    /// The number of frames per cycle.
    pub open spec fn spec_frames(self) -> int {
        seq_sum(self.waits())
    }

    /// How often `next` was called on this stepper.
    pub closed spec fn spec_calls(self) -> nat {
        self.calls@
    }

    /// The total number of steps this stepper has emitted.
    pub closed spec fn spec_emitted(self) -> nat {
        self.emitted@
    }

    /// The frames of the current cycle already consumed.
    closed spec fn consumed(self) -> int {
        seq_sum(self.waits().take(self.index as int)) + self.progress
    }

    /// The steps of the current cycle already fired.
    closed spec fn fired(self) -> int {
        self.index + if self.progress > 0 {
            1int
        } else {
            0int
        }
    }

    /// The frames consumed over the whole run.
    closed spec fn total_consumed(self) -> int {
        self.cycles@ * seq_sum(self.waits()) + self.consumed()
    }

    /// The steps fired over the whole run.
    closed spec fn total_fired(self) -> int {
        self.cycles@ * self.waits().len() + self.fired()
    }

    /// The invariant every live `Stepper` keeps: a non-empty wait sequence
    /// of one of the two shapes, a cursor inside it, and call and step
    /// counters that account for the full cycles plus the current one.
    pub closed spec fn wf(self) -> bool {
        &&& 1 <= self.waits().len() <= 0x4000_0000_0000_0000
        &&& seq_sum(self.waits()) >= 1
        &&& seq_shape(self.waits())
        &&& self.index < self.waits().len()
        &&& (self.progress == 0 || self.progress < self.waits()[self.index as int])
        &&& 0 <= self.consumed() < seq_sum(self.waits())
        &&& (self.consumed() == 0 ==> self.index == 0)
        &&& self.calls@ == self.cycles@ * seq_sum(self.waits()) + self.consumed()
        &&& self.emitted@ == self.cycles@ * self.waits().len() + self.fired()
    }

    /// Returns a new `Stepper` that emits `cells` steps every `frames`
    /// frames.  A zero `cells` or `frames` denotes no motion at all and is
    /// rejected.
    pub fn new(cells: u64, frames: u64) -> (r: Self)
        requires
            1 <= cells <= 0x4000_0000_0000_0000,
            frames >= 1,
        ensures
            r.wf(),
            r.spec_cells() == cells,
            r.spec_frames() == frames,
            r.spec_calls() == 0,
            r.spec_emitted() == 0,
    {
        let sequence = to_sequence(cells, frames);
        let r = Self {
            sequence,
            progress: 0,
            index: 0,
            calls: Ghost(0),
            emitted: Ghost(0),
            cycles: Ghost(0),
        };
        proof {
            if frames / cells >= 1 {
                assert(forall|i: int| 0 <= i < r.waits().len() ==> r.waits()[i] >= 1);
            } else {
                assert(forall|i: int| 0 <= i < r.waits().len() ==> r.waits()[i] <= 1);
            }
            assert(r.waits().take(0) =~= Seq::<u64>::empty());
            assert(r.consumed() == 0);
            assert(r.fired() == 0);
            assert(r.cycles@ * seq_sum(r.waits()) == 0 && r.cycles@ * r.waits().len() == 0)
                by (nonlinear_arith)
                requires
                    r.cycles@ == 0,
            ;
            assert(r.wf());
        }
        r
    }

    /// Returns `true` if the current entry waits less than one frame, so
    /// that its step fires without consuming the frame.
    fn should_retick(&self) -> (r: bool)
        requires
            self.index < self.waits().len(),
        ensures
            r == (self.waits()[self.index as int] == 0),
    {
        self.sequence[self.index] < 1
    }

    /// Progresses the inner state by one: a frame on the current entry, or
    /// an immediate pass over a zero entry.
    fn tick(&mut self)
        requires
            old(self).index < old(self).waits().len(),
            old(self).progress == 0 || old(self).progress < old(self).waits()[old(self).index as int],
        ensures
            final(self).waits() == old(self).waits(),
            final(self).calls@ == old(self).calls@,
            final(self).emitted@ == old(self).emitted@,
            final(self).index < final(self).waits().len(),
            final(self).progress == 0 || final(self).progress < final(self).waits()[final(self).index as int],
            final(self).total_consumed() == old(self).total_consumed() + (if old(self).waits()[old(self).index as int] >= 1 {
                1int
            } else {
                0int
            }),
            final(self).total_fired() == old(self).total_fired() + (if old(self).progress == 0 {
                1int
            } else {
                0int
            }),
            old(self).progress + 1 >= old(self).waits()[old(self).index as int] ==> (final(self).progress == 0 && final(self).index as int == ((old(self).index + 1) as int % old(self).waits().len() as int) && final(self).cycles@ == old(self).cycles@ + (if old(self).index + 1 == old(self).waits().len() {
                1nat
            } else {
                0nat
            })),
            old(self).progress + 1 < old(self).waits()[old(self).index as int] ==> (final(self).progress == old(self).progress + 1 && final(self).index == old(self).index && final(self).cycles@ == old(self).cycles@),
    {
        let ghost s = self.sequence@;
        let ghost i = self.index as int;
        let ghost p = self.progress as int;

        self.progress = self.progress + 1;

        let len = self.sequence.len();
        if self.progress >= self.sequence[self.index] {
            self.progress = 0;
            let wrapped: bool = self.index + 1 == len;
            self.index = (self.index + 1) % len;
            if wrapped {
                self.cycles = Ghost(self.cycles@ + 1);
            }
            proof {
                lemma_sum_take_succ(s, i);
                if i + 1 == s.len() {
                    lemma_mod_self_0(len as int);
                    assert(s.take(s.len() as int) =~= s);
                    assert(s.take(0) =~= Seq::<u64>::empty());
                    assert((self.cycles@) * seq_sum(s) == (self.cycles@ - 1) * seq_sum(s)
                        + seq_sum(s)) by (nonlinear_arith);
                    assert((self.cycles@) * s.len() == (self.cycles@ - 1) * s.len() + s.len())
                        by (nonlinear_arith);
                } else {
                    lemma_small_mod((i + 1) as nat, len as nat);
                }
            }
        }
    }

    /// Progresses the `Stepper` by one frame and returns the corresponding
    /// step count.
    ///
    /// The call and step counters advance so that, by
    /// [`lemma_steps_per_cycle`], any run of `k * frames` calls has emitted
    /// exactly `k * cells` steps.
    pub fn next(&mut self) -> (steps: u64)
        requires
            old(self).wf(),
        ensures
            final(self).wf(),
            final(self).waits() == old(self).waits(),
            final(self).spec_calls() == old(self).spec_calls() + 1,
            final(self).spec_emitted() == old(self).spec_emitted() + steps,
    {
        let ghost s = old(self).waits();
        let ghost n = s.len() as int;
        let ghost total = seq_sum(s);
        let ghost c0 = old(self).cycles@;
        let ghost f0 = old(self).fired();
        let ghost calls0 = old(self).calls@;
        let ghost emitted0 = old(self).emitted@;
        let ghost tc0 = old(self).total_consumed();
        let ghost tf0 = old(self).total_fired();
        let mut steps: u64 = 0;

        // Zero-wait entries before the frame's own entry fire immediately.
        while self.should_retick()
            invariant
                self.waits() == s,
                n == s.len(),
                1 <= n <= 0x4000_0000_0000_0000,
                0 <= f0 <= n,
                total == seq_sum(s),
                total >= 1,
                seq_shape(s),
                self.index < n,
                self.progress == 0 || self.progress < s[self.index as int],
                self.calls@ == calls0,
                self.emitted@ == emitted0,
                self.total_consumed() == tc0,
                self.total_fired() == tf0 + steps,
                c0 <= self.cycles@ <= c0 + 1,
                self.cycles@ > c0 ==> exists|j: int|
                    self.index <= j < n && s[j] >= 1,
                steps == (self.cycles@ - c0) * n + self.fired() - f0,
            decreases
                    (if self.cycles@ == c0 {
                        1int
                    } else {
                        0int
                    }),
                    n - self.index,
        {
            proof {
                assert(self.fired() <= n);
                assert(f0 >= 0);
                assert((self.cycles@ - c0) * n <= 1 * n) by (nonlinear_arith)
                    requires
                        self.cycles@ - c0 <= 1,
                        n >= 0,
                ;
                assert(steps < u64::MAX);
            }
            steps = steps + 1;
            proof {
                if self.cycles@ > c0 {
                    let j = choose|j: int| self.index <= j < n && s[j] >= 1;
                    assert(j > self.index);
                }
            }
            let ghost pre = *self;
            self.tick();
            proof {
                if pre.progress + 1 >= s[pre.index as int] {
                    if pre.index + 1 == n {
                        lemma_mod_self_0(n);
                    } else {
                        lemma_small_mod((pre.index + 1) as nat, n as nat);
                    }
                }
                if pre.index + 1 == n {
                    lemma_sum_pos_exists(s);
                }
                if self.cycles@ > c0 && self.cycles@ == pre.cycles@ {
                    let j = choose|j: int| pre.index <= j < n && s[j] >= 1;
                    assert(self.index <= j < n && s[j] >= 1);
                }
                assert((self.cycles@ - c0) * n + self.fired() == (pre.cycles@ - c0) * n
                    + pre.fired() + 1) by (nonlinear_arith)
                    requires
                        self.cycles@ * n + self.fired() == pre.cycles@ * n + pre.fired() + 1,
                ;
            }
        }

        if self.progress == 0 {
            // The frame's own entry: fire its step and consume the frame;
            // when this completes the entry, following zero-wait entries
            // fire too, up to the end of the cycle.
            let ghost mut ticked: bool = false;
            loop
                invariant_except_break
                    self.waits() == s,
                    n == s.len(),
                    1 <= n <= 0x4000_0000_0000_0000,
                    0 <= f0 <= n,
                    total == seq_sum(s),
                    total >= 1,
                    seq_shape(s),
                    self.index < n,
                    self.progress == 0,
                    self.calls@ == calls0,
                    self.emitted@ == emitted0,
                    !ticked ==> s[self.index as int] >= 1 && self.total_consumed() == tc0 && self.total_fired() == tf0 + steps,
                    ticked ==> self.index != 0 && s[self.index as int] == 0 && seq_sum(
                        s.take(self.index as int),
                    ) >= 1 && self.total_consumed() == tc0 + 1 && self.total_fired() == tf0
                        + steps,
                    c0 <= self.cycles@ <= c0 + 1,
                    steps == (self.cycles@ - c0) * n + self.fired() - f0,
                ensures
                    self.waits() == s,
                    self.index < n,
                    self.calls@ == calls0,
                    self.emitted@ == emitted0,
                    self.total_consumed() == tc0 + 1,
                    self.total_fired() == tf0 + steps,
                    self.progress == 0 || self.progress < s[self.index as int],
                    self.index == 0 || s[self.index as int] >= 1,
                    self.progress == 0 ==> (self.index == 0 || seq_sum(s.take(self.index as int))
                        >= 1),
                decreases
                        (if ticked {
                            0int
                        } else {
                            1int
                        }),
                        n - self.index,
            {
                proof {
                    assert(self.fired() <= n);
                    assert(f0 >= 0);
                    assert((self.cycles@ - c0) * n <= 1 * n) by (nonlinear_arith)
                        requires
                            self.cycles@ - c0 <= 1,
                            n >= 0,
                    ;
                    assert(steps < u64::MAX);
                }
                steps = steps + 1;
                let ghost pre = *self;
                self.tick();
                proof {
                    if pre.progress + 1 >= s[pre.index as int] {
                        if pre.index + 1 == n {
                            lemma_mod_self_0(n);
                        } else {
                            lemma_small_mod((pre.index + 1) as nat, n as nat);
                        }
                    }
                    ticked = true;
                    lemma_sum_take_succ(s, pre.index as int);
                    lemma_sum_nonneg(s.take(pre.index as int));
                    assert((self.cycles@ - c0) * n + self.fired() == (pre.cycles@ - c0) * n
                        + pre.fired() + 1) by (nonlinear_arith)
                        requires
                            self.cycles@ * n + self.fired() == pre.cycles@ * n + pre.fired() + 1,
                    ;
                }

                if self.index == 0 {
                    break ;
                }
                if !self.should_retick() {
                    break ;
                }
            }
        } else {
            // Mid-entry: the frame only advances the wait.
            let ghost pre = *self;
            self.tick();
            proof {
                if pre.progress + 1 >= s[pre.index as int] {
                    if pre.index + 1 == n {
                        lemma_mod_self_0(n);
                    } else {
                        lemma_small_mod((pre.index + 1) as nat, n as nat);
                    }
                }
                assert((self.cycles@ - c0) * n + self.fired() == (pre.cycles@ - c0) * n
                    + pre.fired()) by (nonlinear_arith)
                    requires
                        self.cycles@ * n + self.fired() == pre.cycles@ * n + pre.fired(),
                ;
                assert(s[pre.index as int] >= 2);
                assert(forall|j: int| 0 <= j < n ==> s[j] >= 1);
                if pre.progress + 1 >= s[pre.index as int] {
                    lemma_sum_take_succ(s, pre.index as int);
                    lemma_sum_nonneg(s.take(pre.index as int));
                    if pre.index + 1 < n {
                        lemma_prefix_entry_bound(s, pre.index as int + 1);
                    } else {
                        assert(s.take(0) =~= Seq::<u64>::empty());
                    }
                }
            }
        }

        proof {
            if self.progress > 0 {
                lemma_prefix_entry_bound(s, self.index as int);
            } else if self.index == 0 {
                assert(s.take(0) =~= Seq::<u64>::empty());
            } else {
                lemma_prefix_entry_bound(s, self.index as int);
            }
            lemma_sum_nonneg(s.take(self.index as int));
        }

        self.calls = Ghost((old(self).calls@ + 1) as nat);
        self.emitted = Ghost((old(self).emitted@ + steps) as nat);

        steps
    }
}

/// Over any whole number of full cycles, a `Stepper` emits exactly its
/// configured ratio of steps: `k * frames` calls to `next` have emitted
/// exactly `k * cells` steps — from the very first call, and so for every
/// successive window of `frames` calls as well.
pub proof fn lemma_steps_per_cycle(s: Stepper, k: nat)
    requires
        s.wf(),
        s.spec_calls() == k * s.spec_frames(),
    ensures
        s.spec_emitted() == k * s.spec_cells(),
{
    let frames = seq_sum(s.waits());
    let cycles = s.cycles@;
    assert(k == cycles) by (nonlinear_arith)
        requires
            k * frames == cycles * frames + s.consumed(),
            0 <= s.consumed() < frames,
            frames >= 1,
            k >= 0,
            cycles >= 0,
    ;
    assert(s.consumed() == 0);
    assert(s.index == 0);
    assert(s.waits().take(0) =~= Seq::<u64>::empty());
    assert(s.progress == 0);
    assert(s.fired() == 0);
}

} // verus!
