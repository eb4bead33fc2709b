//! Dates and durations, both counted in whole years.

use vstd::prelude::*;

verus! {

/// The absolute difference of two year counts.
pub open spec fn spec_year_diff(a: nat, b: nat) -> nat {
    if a >= b {
        (a - b) as nat
    } else {
        (b - a) as nat
    }
}

/// A point in time. Currently dates are limited to years.
#[derive(Clone, Copy, Debug, Eq, PartialEq, Hash, Structural)]
pub struct Date(u32);

impl View for Date {
    type V = nat;

    closed spec fn view(&self) -> nat {
        self.0 as nat
    }
}

impl Default for Date {
    /// The default date is year 0.
    fn default() -> (date: Self)
        ensures
            date@ == 0,
    {
        Date(0)
    }
}

impl Date {
    pub fn new(years: u32) -> (date: Self)
        ensures
            date@ == years,
    {
        Date(years)
    }

    pub fn year(&self) -> (year: u32)
        ensures
            year == self@,
    {
        self.0
    }

    /// The [`Duration`] between two dates, in either order.
    pub fn get_duration_since(&self, date: Date) -> (duration: Duration)
        ensures
            duration@ == spec_year_diff(self@, date@),
    {
        if self.0 >= date.0 {
            Duration(self.0 - date.0)
        } else {
            Duration(date.0 - self.0)
        }
    }

    pub fn increase_year(&mut self)
        requires
            old(self)@ < u32::MAX,
        ensures
            final(self)@ == old(self)@ + 1,
    {
        self.0 = self.0 + 1;
    }
}

/// A duration in years.
#[derive(Clone, Copy, Debug, Eq, PartialEq, Hash, Structural)]
pub struct Duration(u32);

impl View for Duration {
    type V = nat;

    closed spec fn view(&self) -> nat {
        self.0 as nat
    }
}

impl Default for Duration {
    /// The default duration is 0 years.
    fn default() -> (duration: Self)
        ensures
            duration@ == 0,
    {
        Duration(0)
    }
}

impl Duration {
    pub fn new(years: u32) -> (duration: Self)
        ensures
            duration@ == years,
    {
        Duration(years)
    }

    pub fn year(&self) -> (years: u32)
        ensures
            years == self@,
    {
        self.0
    }
}

} // verus!
