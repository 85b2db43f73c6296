//! Calendar dates and their canonical `YYYY-MM-DD` rendering, which is the
//! date's contribution to the seed input.

use vstd::prelude::*;

verus! {

/// A date in the proleptic Gregorian calendar, years 0 through 9999, so that
/// the canonical rendering is always exactly ten ASCII bytes.
#[derive(Clone, Copy, PartialEq, Eq, Structural)]
pub struct Date {
    pub year: u16,
    pub month: u8,
    pub day: u8,
}

pub open spec fn spec_is_leap_year(y: int) -> bool {
    y % 4 == 0 && (y % 100 != 0 || y % 400 == 0)
}

pub open spec fn spec_days_in_month(y: int, m: int) -> int {
    if m == 2 {
        if spec_is_leap_year(y) {
            29
        } else {
            28
        }
    } else if m == 4 || m == 6 || m == 9 || m == 11 {
        30
    } else {
        31
    }
}

pub fn is_leap_year(year: u16) -> (r: bool)
    ensures
        r == spec_is_leap_year(year as int),
{
    year % 4 == 0 && (year % 100 != 0 || year % 400 == 0)
}

pub fn days_in_month(year: u16, month: u8) -> (r: u8)
    ensures
        r as int == spec_days_in_month(year as int, month as int),
{
    if month == 2 {
        if is_leap_year(year) {
            29
        } else {
            28
        }
    } else if month == 4 || month == 6 || month == 9 || month == 11 {
        30
    } else {
        31
    }
}

/// One ASCII decimal digit.
pub open spec fn ascii_digit(n: int) -> u8 {
    (48 + n) as u8
}

/// The canonical rendering of a date: `YYYY-MM-DD`, as ASCII bytes, with the
/// year zero-padded to four digits and month and day to two.
pub open spec fn date_ascii(d: Date) -> Seq<u8> {
    seq![
        ascii_digit(d.year as int / 1000),
        ascii_digit((d.year as int / 100) % 10),
        ascii_digit((d.year as int / 10) % 10),
        ascii_digit(d.year as int % 10),
        45u8,
        ascii_digit(d.month as int / 10),
        ascii_digit(d.month as int % 10),
        45u8,
        ascii_digit(d.day as int / 10),
        ascii_digit(d.day as int % 10),
    ]
}

impl Date {
    /// A real calendar date: month and day in range, with month lengths and
    /// leap years respected, and the year small enough for four digits.
    pub open spec fn valid(self) -> bool {
        &&& self.year <= 9999
        &&& 1 <= self.month <= 12
        &&& 1 <= self.day <= spec_days_in_month(self.year as int, self.month as int)
    }

    /// Builds a date; returns `Some` exactly when the fields form a valid
    /// calendar date.
    pub fn new(year: u16, month: u8, day: u8) -> (r: Option<Date>)
        ensures
            r is Some <==> (Date { year, month, day }).valid(),
            r matches Some(d) ==> d == (Date { year, month, day }),
    {
        if year <= 9999 && 1 <= month && month <= 12 && 1 <= day && day <= days_in_month(
            year,
            month,
        ) {
            Some(Date { year, month, day })
        } else {
            None
        }
    }

    /// The canonical `YYYY-MM-DD` rendering as ASCII bytes.
    pub fn ascii(&self) -> (r: Vec<u8>)
        requires
            self.valid(),
        ensures
            r@ == date_ascii(*self),
    {
        let mut out: Vec<u8> = Vec::new();
        out.push(48 + (self.year / 1000) as u8);
        out.push(48 + ((self.year / 100) % 10) as u8);
        out.push(48 + ((self.year / 10) % 10) as u8);
        out.push(48 + (self.year % 10) as u8);
        out.push(45);
        out.push(48 + self.month / 10);
        out.push(48 + self.month % 10);
        out.push(45);
        out.push(48 + self.day / 10);
        out.push(48 + self.day % 10);
        proof {
            assert(out@ =~= date_ascii(*self));
        }
        out
    }
}

} // verus!
