//! The two kinds of storage cell: counters and gauges.

use vstd::prelude::*;

use crate::fixed::Fixed;

verus! {

/// A monotonically increasing 64-bit unsigned accumulator.
///
/// The value starts at 0 and only grows; on overflow it wraps around
/// modulo 2^64, silently and by design.
#[derive(Clone, Copy, PartialEq, Eq, Structural, Debug)]
pub struct Counter {
    /// The running total.
    pub value: u64,
}

impl Counter {
    /// A fresh counter at 0.
    pub fn new() -> (r: Counter)
        ensures
            r.value == 0,
    {
        Counter { value: 0 }
    }

    /// Adds `val` to the running total, wrapping around modulo 2^64.
    pub fn increment(&mut self, val: u64)
        ensures
            final(self).value == old(self).value.wrapping_add(val),
    {
        self.value = self.value.wrapping_add(val);
    }
}

/// A point-in-time quantity that can be set absolutely or moved relatively.
///
/// The cell reflects the most recently applied operation; relative moves
/// wrap around on overflow of the fixed-point unit count.
#[derive(Clone, Copy, PartialEq, Eq, Structural, Debug)]
pub struct Gauge {
    /// The current quantity.
    pub value: Fixed,
}

impl Gauge {
    /// A fresh gauge at 0.0.
    pub fn new() -> (r: Gauge)
        ensures
            r.value.units == 0,
    {
        Gauge { value: Fixed { units: 0 } }
    }

    /// Overwrites the stored quantity.
    pub fn set(&mut self, val: Fixed)
        ensures
            final(self).value == val,
    {
        self.value = val;
    }

    /// Adds `val` to the stored quantity.
    pub fn increase(&mut self, val: Fixed)
        ensures
            final(self).value.units == old(self).value.units.wrapping_add(val.units),
    {
        self.value = self.value.wrapping_add(val);
    }

    /// Subtracts `val` from the stored quantity.
    pub fn decrease(&mut self, val: Fixed)
        ensures
            final(self).value.units == old(self).value.units.wrapping_sub(val.units),
    {
        self.value = self.value.wrapping_sub(val);
    }
}

} // verus!
