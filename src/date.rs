//! Calendar dates of the proleptic Gregorian calendar, as plain values.
//!
//! A `Date` holds a year, a month and a day. Its meaning for the proofs is its
//! day number: the count of days from 0001-01-01 (day 0), negative before it.
//! The arithmetic on dates is done by `chrono`; the trusted items below state
//! what it returns over the day number.
use chrono::Datelike;
use vstd::arithmetic::div_mod::{
    lemma_fundamental_div_mod, lemma_fundamental_div_mod_converse,
    lemma_mod_division_less_than_divisor,
};
use vstd::prelude::*;

verus! {

/// The earliest year that `chrono::NaiveDate` can hold.
pub const MIN_YEAR: i32 = -262143;

/// The latest year that `chrono::NaiveDate` can hold.
pub const MAX_YEAR: i32 = 262142;

/// A calendar date: year, month (1 to 12) and day of the month (from 1).
#[derive(Clone, Copy, Debug, PartialEq, Eq, Structural)]
pub struct Date {
    pub year: i32,
    pub month: u32,
    pub day: u32,
}

/// Whether `y` is a leap year of the proleptic Gregorian calendar.
pub open spec fn is_leap_year(y: int) -> bool {
    y % 4 == 0 && (y % 100 != 0 || y % 400 == 0)
}

/// The number of days in month `m` (1 to 12) of year `y`.
pub open spec fn days_in_month(y: int, m: int) -> int {
    if m == 2 {
        if is_leap_year(y) {
            29
        } else {
            28
        }
    } else if m == 4 || m == 6 || m == 9 || m == 11 {
        30
    } else {
        31
    }
}

/// The number of days in year `y`.
pub open spec fn days_in_year(y: int) -> int {
    if is_leap_year(y) {
        366
    } else {
        365
    }
}

/// The number of days of year `y` that come before the first of month `m`.
pub open spec fn days_before_month(y: int, m: int) -> int {
    let common: int = if m <= 1 {
        0
    } else if m == 2 {
        31
    } else if m == 3 {
        59
    } else if m == 4 {
        90
    } else if m == 5 {
        120
    } else if m == 6 {
        151
    } else if m == 7 {
        181
    } else if m == 8 {
        212
    } else if m == 9 {
        243
    } else if m == 10 {
        273
    } else if m == 11 {
        304
    } else {
        334
    };
    if m > 2 && is_leap_year(y) {
        common + 1
    } else {
        common
    }
}

/// The day number of January 1 of year `y`: 365 days for each year since
/// year 1, plus one for each leap year among them (floor division, so that
/// years before 1 count backwards).
pub open spec fn days_before_year(y: int) -> int {
    let p = y - 1;
    365 * p + p / 4 - p / 100 + p / 400
}

/// The day number of the date `y`-`m`-`d`.
pub open spec fn day_number_of(y: int, m: int, d: int) -> int {
    days_before_year(y) + days_before_month(y, m) + d - 1
}

/// The month before month `m` of year `y`, as (year, month).
pub open spec fn previous_month(y: int, m: int) -> (int, int) {
    if m == 1 {
        (y - 1, 12)
    } else {
        (y, m - 1)
    }
}

impl Date {
    /// The date exists in the calendar and lies in the range that `chrono`
    /// supports.
    pub open spec fn is_valid(self) -> bool {
        &&& MIN_YEAR <= self.year <= MAX_YEAR
        &&& 1 <= self.month <= 12
        &&& 1 <= self.day <= days_in_month(self.year as int, self.month as int)
    }

    /// The count of days from 0001-01-01 to this date.
    pub open spec fn day_number(self) -> int {
        day_number_of(self.year as int, self.month as int, self.day as int)
    }

    /// The number of days in the month before this date's month.
    pub open spec fn days_in_previous_month(self) -> int {
        let (py, pm) = previous_month(self.year as int, self.month as int);
        days_in_month(py, pm)
    }
}

/// The day number of the earliest date that `chrono` supports.
pub open spec fn min_day_number() -> int {
    day_number_of(MIN_YEAR as int, 1, 1)
}

/// The day number of the latest date that `chrono` supports.
pub open spec fn max_day_number() -> int {
    day_number_of(MAX_YEAR as int, 12, 31)
}

/// The valid date whose day number is `n` (one exists, and only one, for each
/// `n` between `min_day_number()` and `max_day_number()`).
pub open spec fn date_with_day_number(n: int) -> Date {
    choose|d: Date| d.is_valid() && d.day_number() == n
}

/// Floor division by `k` steps up by one exactly between `y - 1` and a
/// multiple `y` of `k`.
proof fn lemma_div_step(y: int, k: int)
    requires
        k > 0,
    ensures
        y / k - (y - 1) / k == if y % k == 0 {
            1int
        } else {
            0int
        },
{
    lemma_fundamental_div_mod(y, k);
    lemma_mod_division_less_than_divisor(y, k);
    let q = y / k;
    let r = y % k;
    if r == 0 {
        assert(y - 1 == (q - 1) * k + (k - 1)) by (nonlinear_arith)
            requires
                y == k * q + r,
                r == 0,
        ;
        lemma_fundamental_div_mod_converse(y - 1, k, q - 1, k - 1);
    } else {
        assert(y - 1 == q * k + (r - 1)) by (nonlinear_arith)
            requires
                y == k * q + r,
        ;
        lemma_fundamental_div_mod_converse(y - 1, k, q, r - 1);
    }
}

/// One year further on, January 1 lies `days_in_year(y)` days later.
pub proof fn lemma_next_year(y: int)
    ensures
        days_before_year(y + 1) == days_before_year(y) + days_in_year(y),
{
    lemma_div_step(y, 4);
    lemma_div_step(y, 100);
    lemma_div_step(y, 400);
}

/// January 1 of a later year comes after the whole of an earlier year.
pub proof fn lemma_years_ordered(a: int, b: int)
    requires
        a < b,
    ensures
        days_before_year(a) + days_in_year(a) <= days_before_year(b),
    decreases b - a,
{
    lemma_next_year(a);
    if a + 1 < b {
        lemma_years_ordered(a + 1, b);
        lemma_next_year(a + 1);
    }
}

/// A valid date's day number lies within its year.
pub proof fn lemma_within_year(d: Date)
    requires
        d.is_valid(),
    ensures
        days_before_year(d.year as int) <= d.day_number(),
        d.day_number() < days_before_year(d.year as int) + days_in_year(d.year as int),
{
}

/// A valid date whose month comes before another's in the same year, or whose
/// year comes first, has the smaller day number.
pub proof fn lemma_day_number_ordered(a: Date, b: Date)
    requires
        a.is_valid(),
        b.is_valid(),
        a.year < b.year || (a.year == b.year && (a.month < b.month || (a.month == b.month
            && a.day < b.day))),
    ensures
        a.day_number() < b.day_number(),
{
    lemma_within_year(a);
    lemma_within_year(b);
    if a.year < b.year {
        lemma_years_ordered(a.year as int, b.year as int);
    }
}

/// Two valid dates with the same day number are the same date.
pub proof fn lemma_day_number_injective(a: Date, b: Date)
    requires
        a.is_valid(),
        b.is_valid(),
        a.day_number() == b.day_number(),
    ensures
        a == b,
{
    if a.year < b.year || (a.year == b.year && (a.month < b.month || (a.month == b.month
        && a.day < b.day))) {
        lemma_day_number_ordered(a, b);
    } else if b.year < a.year || (a.year == b.year && (b.month < a.month || (a.month == b.month
        && b.day < a.day))) {
        lemma_day_number_ordered(b, a);
    }
}

/// Each valid date but the last supported one has a valid next day.
pub proof fn lemma_next_day(d: Date) -> (e: Date)
    requires
        d.is_valid(),
        d.day_number() < max_day_number(),
    ensures
        e.is_valid(),
        e.day_number() == d.day_number() + 1,
{
    if (d.day as int) < days_in_month(d.year as int, d.month as int) {
        Date { year: d.year, month: d.month, day: (d.day + 1) as u32 }
    } else if d.month < 12 {
        Date { year: d.year, month: (d.month + 1) as u32, day: 1 }
    } else {
        lemma_next_year(d.year as int);
        if d.year == MAX_YEAR {
            assert(d == Date { year: MAX_YEAR, month: 12, day: 31 });
        }
        Date { year: (d.year + 1) as i32, month: 1, day: 1 }
    }
}

/// Every day number in the supported range is that of a valid date.
pub proof fn lemma_date_exists(n: int)
    requires
        min_day_number() <= n <= max_day_number(),
    ensures
        date_with_day_number(n).is_valid(),
        date_with_day_number(n).day_number() == n,
    decreases n - min_day_number(),
{
    let d = if n == min_day_number() {
        Date { year: MIN_YEAR, month: 1, day: 1 }
    } else {
        lemma_date_exists(n - 1);
        lemma_next_day(date_with_day_number(n - 1))
    };
    assert(d.is_valid() && d.day_number() == n);
}

/// The day numbers of the ends of the supported range.
pub proof fn lemma_range_ends()
    ensures
        min_day_number() == -95746130,
        max_day_number() == 95745398,
{
}

/// The valid date with a given day number is the one that `date_with_day_number`
/// picks.
pub proof fn lemma_date_with_day_number(d: Date)
    requires
        d.is_valid(),
    ensures
        date_with_day_number(d.day_number()) == d,
{
    let c = date_with_day_number(d.day_number());
    assert(c.is_valid() && c.day_number() == d.day_number());
    lemma_day_number_injective(c, d);
}

/// A valid date's day number lies in the range that `chrono` supports.
pub proof fn lemma_day_number_range(d: Date)
    requires
        d.is_valid(),
    ensures
        min_day_number() <= d.day_number() <= max_day_number(),
{
    let lo = Date { year: MIN_YEAR, month: 1, day: 1 };
    let hi = Date { year: MAX_YEAR, month: 12, day: 31 };
    if d != lo {
        lemma_day_number_ordered(lo, d);
    }
    if d != hi {
        lemma_day_number_ordered(d, hi);
    }
}

/// Relies on chrono's `Month::num_days`: the length of a month in a year, with
/// February's depending on the Gregorian leap-year rule. It returns `None`
/// only for February of a year outside `NaiveDate`'s range, and `TryFrom<u8>`
/// for `Month` accepts 1 to 12.
#[verifier::external_body]
fn month_length(year: i32, month: u32) -> (r: u32)
    requires
        1 <= month <= 12,
        month == 2 ==> MIN_YEAR <= year <= MAX_YEAR,
    ensures
        r == days_in_month(year as int, month as int),
{
    let m = chrono::Month::try_from(month as u8).unwrap();
    m.num_days(year).unwrap() as u32
}

/// Relies on chrono's `NaiveDate::signed_duration_since` and
/// `TimeDelta::num_days`: the signed number of days from `from` to `to`.
#[verifier::external_body]
pub(crate) fn days_between(from: Date, to: Date) -> (r: i64)
    requires
        from.is_valid(),
        to.is_valid(),
    ensures
        r == to.day_number() - from.day_number(),
{
    let a = chrono::NaiveDate::from_ymd_opt(from.year, from.month, from.day).unwrap();
    let b = chrono::NaiveDate::from_ymd_opt(to.year, to.month, to.day).unwrap();
    b.signed_duration_since(a).num_days()
}

/// Relies on chrono's `NaiveDate + TimeDelta` with `TimeDelta::days`: the date
/// `n` days after `d` (before it for negative `n`). Both panic only when the
/// result leaves `NaiveDate`'s range, which `requires` excludes.
#[verifier::external_body]
pub(crate) fn add_days(d: Date, n: i64) -> (r: Date)
    requires
        d.is_valid(),
        min_day_number() <= d.day_number() + n <= max_day_number(),
    ensures
        r.is_valid(),
        r.day_number() == d.day_number() + n,
{
    let nd = chrono::NaiveDate::from_ymd_opt(d.year, d.month, d.day).unwrap();
    let s = nd + chrono::TimeDelta::days(n);
    Date { year: s.year(), month: s.month(), day: s.day() }
}

impl Date {
    /// The date `year`-`month`-`day`, or `None` where no such date exists in
    /// the calendar or it lies outside the supported range of years.
    pub fn new(year: i32, month: u32, day: u32) -> (r: Option<Date>)
        ensures
            r is Some <==> (Date { year, month, day }).is_valid(),
            r is Some ==> r->0 == (Date { year, month, day }),
    {
        if year < MIN_YEAR || year > MAX_YEAR || month < 1 || month > 12 || day < 1 {
            return None;
        }
        if day > month_length(year, month) {
            return None;
        }
        Some(Date { year, month, day })
    }

    /// The number of days in the month before this date's month.
    pub fn previous_month_length(self) -> (r: u32)
        requires
            self.is_valid(),
        ensures
            r == self.days_in_previous_month(),
    {
        if self.month == 1 {
            month_length(self.year - 1, 12)
        } else {
            month_length(self.year, self.month - 1)
        }
    }
}

} // verus!
