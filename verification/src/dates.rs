//! Calendar dates and extract timestamps.
//!
//! CIF carries dates as six-digit fields: `DDMMYY` in the header and
//! `YYMMDD` in schedule records. Two-digit years are widened with the usual
//! pivot: `00`–`68` mean 2000–2068 and `69`–`99` mean 1969–1999. A field is
//! accepted only when it names a real proleptic-Gregorian calendar day.

use vstd::prelude::*;
use crate::text::{all_digits, digits_value, lemma_digits_value_bound, parse_number, pow10};

verus! {

/// A calendar day.
#[derive(Debug, Clone, Copy, PartialEq, Eq, Structural)]
pub struct Date {
    pub year: u16,
    pub month: u8,
    pub day: u8,
}

/// A calendar day with a wall-clock minute, as carried by a header record.
#[derive(Debug, Clone, Copy, PartialEq, Eq, Structural)]
pub struct DateTime {
    pub date: Date,
    pub hour: u8,
    pub minute: u8,
}

/// `y` is a leap year of the proleptic Gregorian calendar.
pub open spec fn is_leap_year(y: int) -> bool {
    y % 4 == 0 && (y % 100 != 0 || y % 400 == 0)
}

/// Number of days in month `m` of year `y`.
pub open spec fn days_in_month(y: int, m: int) -> int {
    if m == 2 {
        if is_leap_year(y) {
            29
        } else {
            28
        }
    } else if m == 4 || m == 6 || m == 9 || m == 11 {
        30
    } else {
        31
    }
}

impl Date {
    /// The month and day name a real day of the year.
    pub open spec fn wf(self) -> bool {
        1 <= self.month <= 12 && 1 <= self.day <= days_in_month(
            self.year as int,
            self.month as int,
        )
    }

    /// The placeholder a database or schedule starts with, before any
    /// record has supplied a date.
    pub fn min() -> (r: Date)
        ensures
            r == Date::spec_min(),
    {
        Date { year: 0, month: 1, day: 1 }
    }

    /// The value of [`Date::min`].
    pub open spec fn spec_min() -> Date {
        Date { year: 0, month: 1, day: 1 }
    }
}

impl DateTime {
    /// The timestamp is a real day and a real minute of the day.
    pub open spec fn wf(self) -> bool {
        self.date.wf() && self.hour < 24 && self.minute < 60
    }

    /// The placeholder timestamp of a fresh database.
    pub fn min() -> (r: DateTime)
        ensures
            r == DateTime::spec_min(),
    {
        DateTime { date: Date::min(), hour: 0, minute: 0 }
    }

    /// The value of [`DateTime::min`].
    pub open spec fn spec_min() -> DateTime {
        DateTime { date: Date::spec_min(), hour: 0, minute: 0 }
    }
}

/// The full year named by a two-digit year under the 1969/2068 pivot.
pub open spec fn widen_year(yy: int) -> int {
    if yy <= 68 {
        2000 + yy
    } else {
        1900 + yy
    }
}

/// The day named by three two-digit fields: a year, a month in `1..=12`,
/// and a day within that month. `None` when any field is not a digit run
/// or the triple is no real day.
pub open spec fn date_of_fields(yy: Seq<u8>, mm: Seq<u8>, dd: Seq<u8>) -> Option<Date> {
    match (parse_number(yy), parse_number(mm), parse_number(dd)) {
        (Some(y2), Some(m), Some(d)) => {
            let y = widen_year(y2);
            if 1 <= m <= 12 && 1 <= d <= days_in_month(y, m) {
                Some(Date { year: y as u16, month: m as u8, day: d as u8 })
            } else {
                None
            }
        },
        _ => None,
    }
}

/// The day named by a six-byte `YYMMDD` field.
pub open spec fn date_of_yymmdd(s: Seq<u8>) -> Option<Date> {
    if s.len() == 6 {
        date_of_fields(s.subrange(0, 2), s.subrange(2, 4), s.subrange(4, 6))
    } else {
        None
    }
}

/// The day named by a six-byte `DDMMYY` field.
pub open spec fn date_of_ddmmyy(s: Seq<u8>) -> Option<Date> {
    if s.len() == 6 {
        date_of_fields(s.subrange(4, 6), s.subrange(2, 4), s.subrange(0, 2))
    } else {
        None
    }
}

/// Every date either parse produces is well formed.
pub proof fn lemma_date_of_fields_wf(yy: Seq<u8>, mm: Seq<u8>, dd: Seq<u8>)
    requires
        yy.len() <= 2,
    ensures
        date_of_fields(yy, mm, dd) matches Some(d) ==> d.wf(),
{
    match parse_number(yy) {
        Some(y2) => {
            reveal_with_fuel(pow10, 3);
            lemma_digits_value_bound(yy);
            crate::text::lemma_pow10_increases(yy.len(), 2);
            assert(0 <= y2 < 100);
        },
        None => {},
    }
}

fn parse_two_digits(s: &[u8], at: usize) -> (r: Option<u8>)
    requires
        at + 2 <= s@.len(),
    ensures
        match r {
            Some(v) => parse_number(s@.subrange(at as int, at + 2)) == Some(v as int) && v < 100,
            None => parse_number(s@.subrange(at as int, at + 2)) is None,
        },
{
    let a = s[at];
    let b = s[at + 1];
    let ghost f = s@.subrange(at as int, at + 2);
    proof {
        reveal_with_fuel(digits_value, 3);
        assert(f.len() == 2);
        assert(f[0] == s@[at as int] && f[1] == s@[at + 1]);
        assert(f.drop_last() =~= seq![s@[at as int]]);
        assert(f.drop_last().drop_last() =~= Seq::<u8>::empty());
    }
    if crate::text::N0 <= a && a <= crate::text::N9 && crate::text::N0 <= b && b
        <= crate::text::N9 {
        let v = (a - crate::text::N0) * 10 + (b - crate::text::N0);
        proof {
            assert(all_digits(f));
            assert(digits_value(f) == digits_value(f.drop_last()) * 10 + (f.last()
                - crate::text::N0));
            assert(digits_value(f.drop_last()) == s@[at as int] - crate::text::N0);
        }
        Some(v)
    } else {
        proof {
            if all_digits(f) {
                assert(crate::text::is_digit(f[0]) && crate::text::is_digit(f[1]));
            }
        }
        None
    }
}

fn days_in_month_exec(year: u16, month: u8) -> (r: u8)
    requires
        1 <= month <= 12,
    ensures
        r == days_in_month(year as int, month as int),
{
    if month == 2 {
        if year % 4 == 0 && (year % 100 != 0 || year % 400 == 0) {
            29
        } else {
            28
        }
    } else if month == 4 || month == 6 || month == 9 || month == 11 {
        30
    } else {
        31
    }
}

fn date_of_parts(s: &[u8], yy_at: usize, mm_at: usize, dd_at: usize) -> (r: Option<Date>)
    requires
        yy_at + 2 <= s@.len(),
        mm_at + 2 <= s@.len(),
        dd_at + 2 <= s@.len(),
    ensures
        r == date_of_fields(
            s@.subrange(yy_at as int, yy_at + 2),
            s@.subrange(mm_at as int, mm_at + 2),
            s@.subrange(dd_at as int, dd_at + 2),
        ),
{
    let yy = parse_two_digits(s, yy_at);
    let mm = parse_two_digits(s, mm_at);
    let dd = parse_two_digits(s, dd_at);
    match (yy, mm, dd) {
        (Some(y2), Some(m), Some(d)) => {
            let year: u16 = if y2 <= 68 {
                2000 + y2 as u16
            } else {
                1900 + y2 as u16
            };
            if 1 <= m && m <= 12 && 1 <= d && d <= days_in_month_exec(year, m) {
                Some(Date { year, month: m, day: d })
            } else {
                None
            }
        },
        _ => None,
    }
}

/// Reads a `YYMMDD` date field.
pub fn parse_date_yymmdd(s: &[u8]) -> (r: Option<Date>)
    ensures
        r == date_of_yymmdd(s@),
        r matches Some(d) ==> d.wf(),
{
    if s.len() != 6 {
        return None;
    }
    proof {
        lemma_date_of_fields_wf(s@.subrange(0, 2), s@.subrange(2, 4), s@.subrange(4, 6));
    }
    date_of_parts(s, 0, 2, 4)
}

/// Reads a `DDMMYY` date field.
pub fn parse_date_ddmmyy(s: &[u8]) -> (r: Option<Date>)
    ensures
        r == date_of_ddmmyy(s@),
        r matches Some(d) ==> d.wf(),
{
    if s.len() != 6 {
        return None;
    }
    proof {
        lemma_date_of_fields_wf(s@.subrange(4, 6), s@.subrange(2, 4), s@.subrange(0, 2));
    }
    date_of_parts(s, 4, 2, 0)
}

/// The hour and minute named by the first four bytes of a field: two digit
/// pairs for an hour `00`–`23` and a minute `00`–`59`.
pub open spec fn hhmm_pair_of(s: Seq<u8>) -> Option<(u8, u8)> {
    match (parse_number(s.subrange(0, 2)), parse_number(s.subrange(2, 4))) {
        (Some(h), Some(m)) => {
            if h < 24 && m < 60 {
                Some((h as u8, m as u8))
            } else {
                None
            }
        },
        _ => None,
    }
}

/// The minute of the day named by a four-byte `HHMM` field.
pub open spec fn time_of_hhmm(s: Seq<u8>) -> Option<(u8, u8)> {
    if s.len() == 4 {
        hhmm_pair_of(s)
    } else {
        None
    }
}

/// Reads the hour and minute pair at the head of a time field.
pub fn parse_hhmm_pair(s: &[u8]) -> (r: Option<(u8, u8)>)
    requires
        s@.len() >= 4,
    ensures
        r == hhmm_pair_of(s@),
        r matches Some(hm) ==> hm.0 < 24 && hm.1 < 60,
{
    let hh = parse_two_digits(s, 0);
    let mm = parse_two_digits(s, 2);
    match (hh, mm) {
        (Some(h), Some(m)) => {
            if h < 24 && m < 60 {
                Some((h, m))
            } else {
                None
            }
        },
        _ => None,
    }
}

/// Reads an `HHMM` time-of-day field.
pub fn parse_time_hhmm(s: &[u8]) -> (r: Option<(u8, u8)>)
    ensures
        r == time_of_hhmm(s@),
        r matches Some(hm) ==> hm.0 < 24 && hm.1 < 60,
{
    if s.len() != 4 {
        return None;
    }
    parse_hhmm_pair(s)
}

} // verus!
