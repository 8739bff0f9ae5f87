//! Fixed-point numbers.
//!
//! Every numeric field and every numeric literal is held as a whole number of
//! units of 10^-12, so that ordering and tolerant equality are exact integer
//! arithmetic.

use vstd::prelude::*;

verus! {

/// How many units make up the number one.
pub const UNITS_PER_ONE: i128 = 1_000_000_000_000;

/// Two numbers count as equal when they are less than this many units apart.
pub const EQUALITY_TOLERANCE: i128 = 1_000;

/// A number with twelve decimal places.
#[derive(Clone, Copy, Debug)]
pub struct Decimal {
    pub units: i128,
}

impl View for Decimal {
    type V = int;

    /// The number of units the value holds.
    open spec fn view(&self) -> int {
        self.units as int
    }
}

/// The distance between two unit counts.
pub open spec fn distance(a: int, b: int) -> int {
    if a >= b {
        a - b
    } else {
        b - a
    }
}

/// Equality up to the tolerance.
pub open spec fn nearly_equal(a: int, b: int) -> bool {
    distance(a, b) < EQUALITY_TOLERANCE as int
}

impl Decimal {
    /// The value that holds exactly `units` units.
    pub fn from_units(units: i128) -> (d: Decimal)
        ensures
            d@ == units,
    {
        Decimal { units }
    }

    /// The whole number `n`.
    pub fn from_integer(n: i64) -> (d: Decimal)
        ensures
            d@ == n * UNITS_PER_ONE,
    {
        let wide: i128 = n as i128;
        assert(-0x8000_0000_0000_0000 * 1_000_000_000_000 <= wide * UNITS_PER_ONE
            <= 0x7fff_ffff_ffff_ffff * 1_000_000_000_000) by (nonlinear_arith)
            requires
                -0x8000_0000_0000_0000 <= wide <= 0x7fff_ffff_ffff_ffff,
                UNITS_PER_ONE == 1_000_000_000_000,
        ;
        Decimal { units: wide * UNITS_PER_ONE }
    }

    /// Whether `self` and `other` are less than the tolerance apart.
    pub fn approx_eq(&self, other: &Decimal) -> (r: bool)
        ensures
            r == nearly_equal(self@, other@),
    {
        if self.units >= other.units {
            // The difference of two values of opposite sign can leave the
            // type, so it is formed only once both are known to be small.
            if other.units >= 0 || self.units < 0 {
                self.units - other.units < EQUALITY_TOLERANCE
            } else {
                self.units < EQUALITY_TOLERANCE && other.units > -EQUALITY_TOLERANCE
                    && self.units - other.units < EQUALITY_TOLERANCE
            }
        } else {
            if self.units >= 0 || other.units < 0 {
                other.units - self.units < EQUALITY_TOLERANCE
            } else {
                other.units < EQUALITY_TOLERANCE && self.units > -EQUALITY_TOLERANCE
                    && other.units - self.units < EQUALITY_TOLERANCE
            }
        }
    }
}

} // verus!
