//! Calendar dates as plain year/month/day values.

use vstd::prelude::*;

verus! {

/// A calendar date. A valid date has `month` in `1..=12` and `day` in `1..=31`.
#[derive(Clone, Copy, PartialEq, Eq, Structural, Debug)]
pub struct Date {
    pub year: i32,
    pub month: u32,
    pub day: u32,
}

impl Date {
    /// True when the month and day numbers lie in their calendar ranges.
    pub open spec fn valid(self) -> bool {
        1 <= self.month <= 12 && 1 <= self.day <= 31
    }

    /// Build a date from its parts; rejects month or day numbers outside
    /// their calendar ranges.
    pub fn new(year: i32, month: u32, day: u32) -> (r: Option<Date>)
        ensures
            r matches Some(d) ==> d == (Date { year, month, day }) && d.valid(),
            r is None <==> !(Date { year, month, day }).valid(),
    {
        if 1 <= month && month <= 12 && 1 <= day && day <= 31 {
            Some(Date { year, month, day })
        } else {
            None
        }
    }
}

} // verus!
