//! The fractional value carried by a gauge.
//!
//! A gauge holds a point-in-time quantity that may be fractional, so the cell
//! stores a signed binary fixed-point number: `units` counts steps of 2^-32,
//! so the represented value is `units / 2^32`. Binary fractions such as 0.25
//! or 5.5 are represented exactly, and addition and subtraction are exact
//! integer arithmetic on `units`.

use vstd::prelude::*;

verus! {

/// One step of the fixed-point scale: 2^32 units make 1.0.
pub const FIXED_ONE_UNITS: i64 = 0x1_0000_0000;

/// A signed fixed-point number with 32 fractional bits.
#[derive(Clone, Copy, PartialEq, Eq, Structural, Debug)]
pub struct Fixed {
    /// The represented value times 2^32.
    pub units: i64,
}

impl Fixed {
    /// The value 0.0.
    pub fn zero() -> (r: Fixed)
        ensures
            r.units == 0,
    {
        Fixed { units: 0 }
    }

    /// The value `units / 2^32`, from a raw unit count.
    pub fn from_units(units: i64) -> (r: Fixed)
        ensures
            r.units == units,
    {
        Fixed { units }
    }

    /// The whole number `v`. Every `i32` is representable.
    pub fn from_int(v: i32) -> (r: Fixed)
        ensures
            r.units == v as int * FIXED_ONE_UNITS as int,
    {
        Fixed { units: (v as i64) * FIXED_ONE_UNITS }
    }

    /// The sum, wrapping around on overflow of the unit count.
    pub fn wrapping_add(self, other: Fixed) -> (r: Fixed)
        ensures
            r.units == self.units.wrapping_add(other.units),
    {
        Fixed { units: self.units.wrapping_add(other.units) }
    }

    /// The difference, wrapping around on overflow of the unit count.
    pub fn wrapping_sub(self, other: Fixed) -> (r: Fixed)
        ensures
            r.units == self.units.wrapping_sub(other.units),
    {
        Fixed { units: self.units.wrapping_sub(other.units) }
    }
}

} // verus!
