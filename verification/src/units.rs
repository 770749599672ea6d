//! Newtypes that keep years and days from being mixed up, with the
//! conversions between them.

use crate::arithmetic::div_trunc;
use vstd::prelude::*;

verus! {

/// An age in years.
pub struct Years(pub i64);

/// An age in days.
pub struct Days(pub i64);

impl Years {
    /// A year is treated as exactly 365 days.
    pub fn to_days(&self) -> (r: Days)
        requires
            i64::MIN <= self.0 * 365 <= i64::MAX,
        ensures
            r.0 == self.0 * 365,
    {
        Days(self.0 * 365)
    }
}

impl Days {
    /// Partial years are discarded: the quotient is rounded towards zero.
    pub fn to_years(&self) -> (r: Years)
        ensures
            r.0 == div_trunc(self.0 as int, 365),
    {
        Years(self.0 / 365)
    }
}

/// Old enough means eighteen full years.
pub fn old_enough(age: &Years) -> (r: bool)
    ensures
        r == (age.0 >= 18),
{
    age.0 >= 18
}

} // verus!
