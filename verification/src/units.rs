//! Length expressed in whole millimetres.

use vstd::prelude::*;

use crate::fixed::tdiv;
use crate::fixed::tdiv64;

verus! {

/// A length in millimetres.
#[derive(Debug, Copy, Clone, PartialEq, Eq, Structural)]
pub struct MilliMeter(pub i64);

impl MilliMeter {
    /// The value in whole metres, truncated toward zero.
    pub fn as_meters(&self) -> (r: i64)
        ensures
            r == tdiv(self.0 as int, 1000),
    {
        tdiv64(self.as_millimeters(), 1000)
    }

    /// The value in whole centimetres, truncated toward zero.
    pub fn as_centimeters(&self) -> (r: i64)
        ensures
            r == tdiv(self.0 as int, 10),
    {
        tdiv64(self.as_millimeters(), 10)
    }

    /// The value in millimetres.
    pub fn as_millimeters(&self) -> (r: i64)
        ensures
            r == self.0,
    {
        self.0
    }

    /// Sum of two lengths.
    pub fn plus(self, rhs: MilliMeter) -> (r: MilliMeter)
        requires
            i64::MIN <= self.0 + rhs.0 <= i64::MAX,
        ensures
            r.0 == self.0 + rhs.0,
    {
        MilliMeter(self.0 + rhs.0)
    }

    /// Difference of two lengths.
    pub fn minus(self, rhs: MilliMeter) -> (r: MilliMeter)
        requires
            i64::MIN <= self.0 - rhs.0 <= i64::MAX,
        ensures
            r.0 == self.0 - rhs.0,
    {
        MilliMeter(self.0 - rhs.0)
    }

    /// Product of two lengths.
    pub fn times(self, rhs: MilliMeter) -> (r: MilliMeter)
        requires
            i64::MIN <= self.0 * rhs.0 <= i64::MAX,
        ensures
            r.0 == self.0 * rhs.0,
    {
        MilliMeter(self.0 * rhs.0)
    }

    /// Quotient of two lengths, truncated toward zero.
    pub fn div_by(self, rhs: MilliMeter) -> (r: MilliMeter)
        requires
            rhs.0 != 0,
            !(self.0 == i64::MIN && rhs.0 == -1),
        ensures
            r.0 == tdiv(self.0 as int, rhs.0 as int),
    {
        MilliMeter(tdiv64(self.0, rhs.0))
    }
}

} // verus!
