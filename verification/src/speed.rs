//! A distance covered over a duration.

use vstd::prelude::*;
use vstd::arithmetic::div_mod::{
    lemma_fundamental_div_mod,
    lemma_fundamental_div_mod_converse_div,
    lemma_mod_division_less_than_divisor,
    lemma_div_nonincreasing,
};
use crate::distance::{Distance, fits_distance};
use crate::duration::{Duration, NANOS_PER_SEC};

verus! {

/// The milliunits travelled when a rate of `v` milliunits per `d` nanoseconds
/// runs for `t` nanoseconds, rounded toward negative infinity.
pub open spec fn scaled_millis(v: int, t: int, d: int) -> int
    recommends
        d > 0,
{
    (v * t) / d
}

/// Flooring division of a negative numerator equals the negated ceiling
/// division of its magnitude.
proof fn lemma_div_neg_ceil(a: int, d: int)
    requires
        a >= 0,
        d > 0,
    ensures
        (-a) / d == -((a + d - 1) / d),
{
    let q = a / d;
    let r = a % d;
    lemma_fundamental_div_mod(a, d);
    lemma_mod_division_less_than_divisor(a, d);
    assert((-q) * d == -(q * d) && (-q - 1) * d == -(q * d) - d && (q + 1) * d == q * d + d)
        by (nonlinear_arith);
    if r == 0 {
        lemma_fundamental_div_mod_converse_div(-a, d, -q, 0);
        lemma_fundamental_div_mod_converse_div(a + d - 1, d, q, d - 1);
    } else {
        lemma_fundamental_div_mod_converse_div(-a, d, -q - 1, d - r);
        lemma_fundamental_div_mod_converse_div(a + d - 1, d, q + 1, r - 1);
    }
}

/// Computes `scaled_millis` exactly, without any range bound on the
/// result.
pub(crate) fn scale_millis_wide(v: i64, t: u64, d: u64) -> (r: i128)
    requires
        d > 0,
        i16::MIN * 1000 <= v <= i16::MAX * 1000 + 999,
    ensures
        r == scaled_millis(v as int, t as int, d as int),
{
    if v >= 0 {
        proof {
            assert(v * t <= 32_767_999 * u64::MAX) by (nonlinear_arith)
                requires
                    0 <= v <= 32_767_999,
                    0 <= t <= u64::MAX,
            ;
        }
        let a: u128 = (v as u128) * (t as u128);
        let q: u128 = a / (d as u128);
        proof {
            lemma_div_nonincreasing(a as int, d as int);
        }
        q as i128
    } else {
        let m: u64 = (-v) as u64;
        proof {
            assert(m * t <= 32_768_000 * u64::MAX && m * t == -(v * t)) by (nonlinear_arith)
                requires
                    m == -v,
                    0 < m <= 32_768_000,
                    0 <= t <= u64::MAX,
            ;
        }
        let a: u128 = (m as u128) * (t as u128);
        let q: u128 = (a + (d as u128 - 1)) / (d as u128);
        proof {
            lemma_div_neg_ceil(a as int, d as int);
            assert((v * t) as int / d as int == -(q as int));
            lemma_div_nonincreasing((a + (d - 1)) as int, d as int);
        }
        -(q as i128)
    }
}

/// Computes `scaled_millis` exactly, for results within the fixed-point
/// range.
fn scale_millis(v: i64, t: u64, d: u64) -> (r: i64)
    requires
        d > 0,
        i16::MIN * 1000 <= v <= i16::MAX * 1000 + 999,
        fits_distance(scaled_millis(v as int, t as int, d as int)),
    ensures
        r == scaled_millis(v as int, t as int, d as int),
{
    let wide: i128 = scale_millis_wide(v, t, d);
    wide as i64
}

/// A `Speed` type to represent a `Distance` covered over a `Duration`.
///
/// The denoted rate is `distance / duration`; two speeds are compared by
/// cross-multiplying, so `1 unit / 1 s` equals `60 units / 60 s` exactly.
#[derive(Copy, Clone, Debug)]
pub struct Speed {
    /// The `Distance` covered.
    distance: Distance,
    /// The `Duration` it takes, never zero.
    duration: Duration,
}

impl Speed {
    /// The defining duration is never zero.
    #[verifier::type_invariant]
    pub open spec fn wf(self) -> bool {
        self.spec_duration().spec_nanos() > 0
    }

    /// The `Distance` component.
    pub closed spec fn spec_distance(self) -> Distance {
        self.distance
    }

    /// The `Duration` component.
    pub closed spec fn spec_duration(self) -> Duration {
        self.duration
    }

    /// The milliunits this speed covers in `t` nanoseconds, rounded toward
    /// negative infinity.
    pub open spec fn travel_millis(self, t: int) -> int {
        scaled_millis(self.spec_distance().value_millis(), t, self.spec_duration().spec_nanos() as int)
    }

    /// Creates a new `Speed` with the specified `distance` and `duration`.
    ///
    /// A zero `duration` denotes no rate at all and is rejected.
    pub fn new(distance: Distance, duration: Duration) -> (r: Self)
        requires
            duration.spec_nanos() > 0,
        ensures
            r.spec_distance() == distance,
            r.spec_duration() == duration,
    {
        Self { distance, duration }
    }

    /// Creates a new `Speed` from a whole number of units per second.
    pub fn from_units_per_sec(units_per_sec: i16) -> (r: Self)
        ensures
            r.spec_distance().value_millis() == units_per_sec * 1000,
            r.spec_duration().spec_nanos() == NANOS_PER_SEC,
    {
        Self { distance: Distance::from_units(units_per_sec), duration: Duration::from_secs(1) }
    }

    /// Creates a new `Speed` from a `Distance` covered every second.
    pub fn from_per_sec(per_sec: Distance) -> (r: Self)
        ensures
            r.spec_distance() == per_sec,
            r.spec_duration().spec_nanos() == NANOS_PER_SEC,
    {
        Self { distance: per_sec, duration: Duration::from_secs(1) }
    }

    /// The `Distance` component.
    pub fn distance(&self) -> (r: Distance)
        ensures
            r == self.spec_distance(),
    {
        self.distance
    }

    /// The `Duration` component.
    pub fn duration(&self) -> (r: Duration)
        ensures
            r == self.spec_duration(),
    {
        self.duration
    }

    /// Changes the sign of the `Speed` by flipping the sign of the whole-unit
    /// component of its distance.
    pub fn neg(&self) -> (r: Self)
        requires
            self.spec_distance().spec_units() > i16::MIN,
        ensures
            r.spec_distance().spec_units() == -self.spec_distance().spec_units(),
            r.spec_distance().spec_millis() == self.spec_distance().spec_millis(),
            r.spec_duration() == self.spec_duration(),
    {
        proof {
            use_type_invariant(*self);
        }
        Self { distance: self.distance.flip_units(), duration: self.duration }
    }

    /// Multiplies a `Speed` by a `Duration` to produce the travelled
    /// `Distance`.
    ///
    /// The result is exact whenever the milliunit product divides evenly by
    /// the defining duration — in particular for whole multiples and simple
    /// fractions of it — and is floored to the milliunit otherwise.
    pub fn mul_duration(&self, rhs: Duration) -> (r: Distance)
        requires
            fits_distance(self.travel_millis(rhs.spec_nanos() as int)),
        ensures
            r.value_millis() == self.travel_millis(rhs.spec_nanos() as int),
            r.normalised(),
    {
        proof {
            use_type_invariant(*self);
            use_type_invariant(self.distance);
        }
        let units: i64 = self.distance.as_units() as i64;
        let v: i64 = units * 1000 + self.distance.as_millis_part() as i64;
        let q: i64 = scale_millis(v, rhs.as_nanos(), self.duration.as_nanos());
        distance_from_millis(q)
    }

    /// Returns this `Speed` expressed as a `Distance` per second, floored to
    /// the milliunit.
    pub fn as_per_sec(&self) -> (r: Distance)
        requires
            fits_distance(self.travel_millis(NANOS_PER_SEC as int)),
        ensures
            r.value_millis() == self.travel_millis(NANOS_PER_SEC as int),
            r.normalised(),
    {
        self.mul_duration(Duration::from_secs(1))
    }
}

impl Speed {
    /// Two speeds denote the same rate exactly when their cross products
    /// agree: `a.distance / a.duration == b.distance / b.duration`.
    pub open spec fn rate_eq(self, other: Speed) -> bool {
        self.spec_distance().value_millis() * other.spec_duration().spec_nanos()
            == other.spec_distance().value_millis() * self.spec_duration().spec_nanos()
    }

    /// This speed denotes a strictly smaller rate than `other`.
    pub open spec fn rate_lt(self, other: Speed) -> bool {
        self.spec_distance().value_millis() * other.spec_duration().spec_nanos()
            < other.spec_distance().value_millis() * self.spec_duration().spec_nanos()
    }

    /// The two cross products that decide how `self` and `other` compare.
    fn cross(&self, other: &Speed) -> (r: (i128, i128))
        ensures
            r.0 == self.spec_distance().value_millis() * other.spec_duration().spec_nanos(),
            r.1 == other.spec_distance().value_millis() * self.spec_duration().spec_nanos(),
    {
        proof {
            use_type_invariant(self.distance);
            use_type_invariant(other.distance);
        }
        let va: i128 = self.distance.as_units() as i128 * 1000 + self.distance.as_millis_part() as i128;
        let vb: i128 = other.distance.as_units() as i128 * 1000 + other.distance.as_millis_part() as i128;
        let da: i128 = self.duration.as_nanos() as i128;
        let db: i128 = other.duration.as_nanos() as i128;
        proof {
            assert(-32_768_000 * u64::MAX <= va * db <= 32_768_000 * u64::MAX) by (nonlinear_arith)
                requires
                    -32_768_000 <= va <= 32_768_000,
                    0 <= db <= u64::MAX,
            ;
            assert(-32_768_000 * u64::MAX <= vb * da <= 32_768_000 * u64::MAX) by (nonlinear_arith)
                requires
                    -32_768_000 <= vb <= 32_768_000,
                    0 <= da <= u64::MAX,
            ;
        }
        (va * db, vb * da)
    }
}

impl PartialEq for Speed {
    /// Compares the denoted rates, not the raw components.
    fn eq(&self, other: &Speed) -> (r: bool) {
        let (l, r) = self.cross(other);
        l == r
    }
}

impl Eq for Speed {

}

impl vstd::std_specs::cmp::PartialEqSpecImpl for Speed {
    open spec fn obeys_eq_spec() -> bool {
        true
    }

    open spec fn eq_spec(&self, other: &Speed) -> bool {
        self.rate_eq(*other)
    }
}

impl PartialOrd for Speed {
    /// Orders the denoted rates by cross-multiplication.
    fn partial_cmp(&self, other: &Speed) -> (r: Option<core::cmp::Ordering>) {
        let (l, r) = self.cross(other);
        if l < r {
            Some(core::cmp::Ordering::Less)
        } else if l == r {
            Some(core::cmp::Ordering::Equal)
        } else {
            Some(core::cmp::Ordering::Greater)
        }
    }
}

impl vstd::std_specs::cmp::PartialOrdSpecImpl for Speed {
    open spec fn obeys_partial_cmp_spec() -> bool {
        true
    }

    open spec fn partial_cmp_spec(&self, other: &Speed) -> Option<core::cmp::Ordering> {
        if self.rate_lt(*other) {
            Some(core::cmp::Ordering::Less)
        } else if self.rate_eq(*other) {
            Some(core::cmp::Ordering::Equal)
        } else {
            Some(core::cmp::Ordering::Greater)
        }
    }
}

/// Rebuilds a `Distance` from a milliunit count, splitting off the
/// fractional part so that it lands in `[0, 1000)`.
fn distance_from_millis(q: i64) -> (r: Distance)
    requires
        fits_distance(q as int),
    ensures
        r.value_millis() == q,
        r.normalised(),
{
    if q >= 0 {
        Distance::new((q / 1000) as i16, (q % 1000) as u16)
    } else {
        let p: i64 = -q;
        let rem: i64 = p % 1000;
        if rem == 0 {
            Distance::new((-(p / 1000)) as i16, 0)
        } else {
            let r = Distance::new((-(p / 1000) - 1) as i16, (1000 - rem) as u16);
            proof {
                lemma_fundamental_div_mod(p as int, 1000);
            }
            r
        }
    }
}

} // verus!
