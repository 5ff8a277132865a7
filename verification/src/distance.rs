//! A span of space in fixed-point representation.

use vstd::prelude::*;

verus! {

/// Milliunits in one unit.
pub const MILLIS_PER_UNIT: u16 = 1_000;

/// A `Distance` type to represent a span of space.
///
/// Each `Distance` is composed of a whole number of units and a fractional
/// part represented in milliunits.  The value it denotes is
/// `units + millis / 1000`, so the milliunit count of a `Distance` is
/// `units * 1000 + millis`; the fractional part always lies in `[0, 1000)`
/// and addition carries into the whole component.
#[derive(Copy, Clone, Debug, PartialEq, Eq, Structural)]
pub struct Distance {
    /// The number of whole units.
    units: i16,
    /// The number of milliunits, always below 1 000.
    millis: u16,
}

/// Returns `true` when a milliunit count is representable as a `Distance`.
pub open spec fn fits_distance(v: int) -> bool {
    i16::MIN * 1000 <= v <= i16::MAX * 1000 + 999
}

/// A milliunit count rounded to whole units, halves away from zero.
pub open spec fn round_millis(v: int) -> int {
    if v >= 0 {
        (v + 500) / 1000
    } else {
        -((-v + 500) / 1000)
    }
}

/// A milliunit count truncated to whole units, toward zero.
pub open spec fn trunc_millis(v: int) -> int {
    if v >= 0 {
        v / 1000
    } else {
        -((-v) / 1000)
    }
}

impl Distance {
    /// The whole-unit component.
    pub closed spec fn spec_units(self) -> int {
        self.units as int
    }

    /// The milliunit component.
    pub closed spec fn spec_millis(self) -> int {
        self.millis as int
    }

    /// The value of this `Distance` counted in milliunits.
    pub open spec fn value_millis(self) -> int {
        self.spec_units() * 1000 + self.spec_millis()
    }

    /// The shape every live `Distance` has: a whole-unit component that fits
    /// its field and a fractional part below a full unit.
    #[verifier::type_invariant]
    pub open spec fn normalised(self) -> bool {
        &&& 0 <= self.spec_millis() < 1000
        &&& i16::MIN <= self.spec_units() <= i16::MAX
    }

    /// Creates a new `Distance` from `units` and `millis`.
    pub fn new(units: i16, millis: u16) -> (r: Self)
        requires
            millis < 1000,
        ensures
            r.spec_units() == units,
            r.spec_millis() == millis,
            r.normalised(),
    {
        Self { units, millis }
    }

    /// Creates a new `Distance` from `units`.
    pub fn from_units(units: i16) -> (r: Self)
        ensures
            r.spec_units() == units,
            r.spec_millis() == 0,
            r.value_millis() == units * 1000,
            r.normalised(),
    {
        Self { units, millis: 0 }
    }

    /// Returns the number of *whole* units in this `Distance`.
    ///
    /// Does not include the fractional (millis) part.
    pub fn as_units(&self) -> (r: i16)
        ensures
            r == self.spec_units(),
    {
        self.units
    }

    /// Returns the fractional part of this `Distance`, in milliunits.
    pub fn as_millis_part(&self) -> (r: u16)
        ensures
            r == self.spec_millis(),
    {
        self.millis
    }

    /// Adds two `Distance` together, carrying fractional overflow into the
    /// whole component.  The sum of two in-range values keeps its exact
    /// milliunit count: no precision is lost.
    pub fn add(&self, rhs: Distance) -> (r: Self)
        requires
            fits_distance(self.value_millis() + rhs.value_millis()),
        ensures
            r.value_millis() == self.value_millis() + rhs.value_millis(),
            r.normalised(),
    {
        proof {
            use_type_invariant(*self);
            use_type_invariant(rhs);
        }
        let mut units: i32 = self.units as i32 + rhs.units as i32;
        let mut millis: u16 = self.millis + rhs.millis;

        if millis >= 1000 {
            units = units + 1;
            millis = millis - 1000;
        }

        Self { units: units as i16, millis }
    }

    /// Subtracts `rhs` from this `Distance`, borrowing from the whole
    /// component when the fractional part underflows.
    pub fn sub(&self, rhs: Distance) -> (r: Self)
        requires
            fits_distance(self.value_millis() - rhs.value_millis()),
        ensures
            r.value_millis() == self.value_millis() - rhs.value_millis(),
            r.normalised(),
    {
        proof {
            use_type_invariant(*self);
            use_type_invariant(rhs);
        }
        let mut units: i32 = self.units as i32 - rhs.units as i32;
        let millis: u16 = if self.millis >= rhs.millis {
            self.millis - rhs.millis
        } else {
            units = units - 1;
            1000 + self.millis - rhs.millis
        };

        Self { units: units as i16, millis }
    }

    /// Flips the sign of the whole-unit component, keeping the fractional
    /// part.  This is the sign change used by speed negation.
    pub(crate) fn flip_units(&self) -> (r: Self)
        requires
            self.spec_units() > i16::MIN,
        ensures
            r.spec_units() == -self.spec_units(),
            r.spec_millis() == self.spec_millis(),
            r.normalised(),
    {
        proof {
            use_type_invariant(*self);
        }
        Self { units: -self.units, millis: self.millis }
    }

    /// Rounds to the nearest whole number of units, halves away from zero.
    pub fn round(&self) -> (r: i16)
        requires
            self.value_millis() <= i16::MAX * 1000 + 499,
        ensures
            r == round_millis(self.value_millis()),
    {
        proof {
            use_type_invariant(*self);
        }
        let v: i32 = self.units as i32 * 1000 + self.millis as i32;
        if v >= 0 {
            ((v + 500) / 1000) as i16
        } else {
            (-((-v + 500) / 1000)) as i16
        }
    }

    /// Truncates to a whole number of units, toward zero.
    pub fn trunc(&self) -> (r: i16)
        ensures
            r == trunc_millis(self.value_millis()),
    {
        proof {
            use_type_invariant(*self);
        }
        let v: i32 = self.units as i32 * 1000 + self.millis as i32;
        if v >= 0 {
            (v / 1000) as i16
        } else {
            (-((-v) / 1000)) as i16
        }
    }
}

} // verus!
