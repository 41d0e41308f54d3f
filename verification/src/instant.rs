//! Calendar points on the simulation's linear timeline.
//!
//! An [`Instant`] is a month, a day within the month and a second within the
//! day, over a 365-day (non-leap) year. Every well-formed instant maps to a
//! unique number of seconds since the start of the year, so comparisons are
//! consistent with a single linear timeline.

use vstd::prelude::*;
use vstd::arithmetic::div_mod::lemma_fundamental_div_mod;

verus! {

/// Seconds in one day.
pub const SECONDS_PER_DAY: u64 = 86400;

/// Seconds in the 365-day simulation year.
pub const SECONDS_PER_YEAR: u64 = 365 * 86400;

/// One point on the simulation's calendar.
#[derive(Clone, Copy, PartialEq, Eq, Structural, Debug)]
pub struct Instant {
    /// Month of the year, 1 through 12.
    pub month: u8,
    /// Day of the month, 1-based.
    pub day: u8,
    /// Second within the day, below 86400.
    pub second: u32,
}

/// Number of days in the given month of a non-leap year.
pub open spec fn days_in_month(month: int) -> int {
    if month == 1 { 31 } else if month == 2 { 28 } else if month == 3 { 31 }
    else if month == 4 { 30 } else if month == 5 { 31 } else if month == 6 { 30 }
    else if month == 7 { 31 } else if month == 8 { 31 } else if month == 9 { 30 }
    else if month == 10 { 31 } else if month == 11 { 30 } else { 31 }
}

/// Number of days of the year that precede the given month.
pub open spec fn days_before_month(month: int) -> int {
    if month <= 1 { 0 } else if month == 2 { 31 } else if month == 3 { 59 }
    else if month == 4 { 90 } else if month == 5 { 120 } else if month == 6 { 151 }
    else if month == 7 { 181 } else if month == 8 { 212 } else if month == 9 { 243 }
    else if month == 10 { 273 } else if month == 11 { 304 } else { 334 }
}

/// The month that contains the given 0-based day of the year.
pub open spec fn month_of_year_day(d: int) -> int {
    if d < 31 { 1 } else if d < 59 { 2 } else if d < 90 { 3 }
    else if d < 120 { 4 } else if d < 151 { 5 } else if d < 181 { 6 }
    else if d < 212 { 7 } else if d < 243 { 8 } else if d < 273 { 9 }
    else if d < 304 { 10 } else if d < 334 { 11 } else { 12 }
}

/// The unique instant that lies `s` seconds after the start of the year.
pub open spec fn instant_of_seconds(s: int) -> Instant {
    let d = s / 86400;
    let m = month_of_year_day(d);
    Instant {
        month: m as u8,
        day: (d - days_before_month(m) + 1) as u8,
        second: (s % 86400) as u32,
    }
}

impl Instant {
    /// A well-formed instant names an existing calendar day and a second
    /// within the day.
    pub open spec fn wf(self) -> bool {
        &&& 1 <= self.month <= 12
        &&& 1 <= self.day <= days_in_month(self.month as int)
        &&& self.second < 86400
    }

    /// Seconds between the start of the year and this instant.
    pub open spec fn total_seconds(self) -> int {
        (days_before_month(self.month as int) + self.day - 1) * 86400 + self.second
    }

    /// Builds an instant from its calendar parts.
    pub fn new(month: u8, day: u8, second: u32) -> (r: Instant)
        requires
            1 <= month <= 12,
            1 <= day <= days_in_month(month as int),
            second < 86400,
        ensures
            r == (Instant { month, day, second }),
            r.wf(),
    {
        Instant { month, day, second }
    }

    /// Seconds since the start of the year, computed from the calendar parts.
    pub fn to_total_seconds(&self) -> (r: u64)
        requires
            self.wf(),
        ensures
            r == self.total_seconds(),
            r < SECONDS_PER_YEAR,
    {
        let days_before: u64 = match self.month {
            1 => 0, 2 => 31, 3 => 59, 4 => 90, 5 => 120, 6 => 151,
            7 => 181, 8 => 212, 9 => 243, 10 => 273, 11 => 304, 12 => 334,
            _ => { proof { assert(false); } 0 },
        };
        (days_before + self.day as u64 - 1) * 86400 + self.second as u64
    }

    /// The instant `s` seconds after the start of the year.
    pub fn from_total_seconds(s: u64) -> (r: Instant)
        requires
            s < SECONDS_PER_YEAR,
        ensures
            r == instant_of_seconds(s as int),
            r.wf(),
            r.total_seconds() == s,
    {
        proof {
            lemma_fundamental_div_mod(s as int, 86400);
        }
        let d: u64 = s / 86400;
        let second: u32 = (s % 86400) as u32;
        let (month, days_before): (u8, u64) =
            if d < 31 { (1, 0) } else if d < 59 { (2, 31) } else if d < 90 { (3, 59) }
            else if d < 120 { (4, 90) } else if d < 151 { (5, 120) } else if d < 181 { (6, 151) }
            else if d < 212 { (7, 181) } else if d < 243 { (8, 212) } else if d < 273 { (9, 243) }
            else if d < 304 { (10, 273) } else if d < 334 { (11, 304) } else { (12, 334) };
        let day: u8 = (d - days_before + 1) as u8;
        Instant { month, day, second }
    }

    /// True when `self` lies strictly after `other` on the timeline.
    pub fn is_later(&self, other: &Instant) -> (r: bool)
        requires
            self.wf(),
            other.wf(),
        ensures
            r == (self.total_seconds() > other.total_seconds()),
    {
        self.to_total_seconds() > other.to_total_seconds()
    }

    /// The instant a given number of seconds after `self`, within the year.
    pub fn add_seconds(&self, s: u64) -> (r: Instant)
        requires
            self.wf(),
            self.total_seconds() + s < SECONDS_PER_YEAR,
        ensures
            r.wf(),
            r.total_seconds() == self.total_seconds() + s,
            r == instant_of_seconds(self.total_seconds() + s),
    {
        Instant::from_total_seconds(self.to_total_seconds() + s)
    }
}

/// A well-formed instant round-trips through its second count: converting the
/// total seconds back to calendar parts yields the same instant.
pub proof fn lemma_total_seconds_roundtrip(i: Instant)
    requires
        i.wf(),
    ensures
        0 <= i.total_seconds() < SECONDS_PER_YEAR,
        instant_of_seconds(i.total_seconds()) == i,
{
    let t = i.total_seconds();
    let db = days_before_month(i.month as int);
    lemma_fundamental_div_mod(t, 86400);
    assert(t / 86400 == db + i.day - 1) by {
        vstd::arithmetic::div_mod::lemma_div_multiples_vanish_fancy(db + i.day - 1, i.second as int, 86400);
    }
    assert(month_of_year_day(db + i.day - 1) == i.month as int);
}

/// The timeline is linear, with no wraparound ambiguity: two well-formed
/// instants with the same second count are the same calendar point, so
/// equality and `is_later` are consistent with one total order.
pub proof fn lemma_timeline_linear(i: Instant, j: Instant)
    requires
        i.wf(),
        j.wf(),
        i.total_seconds() == j.total_seconds(),
    ensures
        i == j,
{
    lemma_total_seconds_roundtrip(i);
    lemma_total_seconds_roundtrip(j);
}

} // verus!
