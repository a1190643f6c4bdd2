use vstd::prelude::*;

verus! {

/// A protocol time value: year/month/day/hour/minute/second in UTC, no
/// sub-second precision. Stored revocation times are carried in this form;
/// a value may be malformed (e.g. month 13) when the store held bad data,
/// so well-formedness is checked before use.
#[derive(Clone, Copy, Debug, PartialEq, Eq, Structural)]
pub struct Timestamp {
    pub year: i32,
    pub month: u32,
    pub day: u32,
    pub hour: u32,
    pub minute: u32,
    pub second: u32,
}

/// Proleptic-Gregorian leap-year rule.
pub open spec fn is_leap_year(y: int) -> bool {
    (y % 4 == 0 && y % 100 != 0) || y % 400 == 0
}

/// Number of days in month `m` (1-based) of year `y`.
pub open spec fn days_in_month(y: int, m: int) -> int {
    if m == 2 {
        if is_leap_year(y) {
            29
        } else {
            28
        }
    } else if m == 4 || m == 6 || m == 9 || m == 11 {
        30
    } else {
        31
    }
}

impl Timestamp {
    /// A timestamp is well formed when it denotes a real calendar date
    /// within the representable year range and a real time of day.
    pub open spec fn wf(self) -> bool {
        &&& -262143 <= self.year <= 262142
        &&& 1 <= self.month <= 12
        &&& 1 <= self.day <= days_in_month(self.year as int, self.month as int)
        &&& self.hour <= 23
        &&& self.minute <= 59
        &&& self.second <= 59
    }

    pub fn is_well_formed(&self) -> (r: bool)
        ensures
            r == self.wf(),
    {
        if self.year < -262143 || self.year > 262142 {
            return false;
        }
        if self.month < 1 || self.month > 12 {
            return false;
        }
        let dim = month_length(self.year, self.month);
        if self.day < 1 || self.day > dim {
            return false;
        }
        self.hour <= 23 && self.minute <= 59 && self.second <= 59
    }
}

/// The Unix epoch, 1970-01-01T00:00:00Z: the sentinel time reported for a
/// missing record under the assume-revoked policy.
pub open spec fn spec_epoch() -> Timestamp {
    Timestamp { year: 1970, month: 1, day: 1, hour: 0, minute: 0, second: 0 }
}

pub fn epoch() -> (t: Timestamp)
    ensures
        t == spec_epoch(),
{
    Timestamp { year: 1970, month: 1, day: 1, hour: 0, minute: 0, second: 0 }
}

#[verifier::rlimit(60)]
pub fn leap_year(y: i32) -> (r: bool)
    ensures
        r == is_leap_year(y as int),
{
    (y % 4 == 0 && y % 100 != 0) || y % 400 == 0
}

pub fn month_length(y: i32, m: u32) -> (d: u32)
    requires
        1 <= m <= 12,
    ensures
        d as int == days_in_month(y as int, m as int),
{
    if m == 2 {
        if leap_year(y) {
            29
        } else {
            28
        }
    } else if m == 4 || m == 6 || m == 9 || m == 11 {
        30
    } else {
        31
    }
}

} // verus!
