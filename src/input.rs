//! From the three text fields of a request (birth date, gestational weeks,
//! gestational days) and the reference date to the two ages, or to the error
//! that names the field that could not be read.
use crate::age::{
    chronological_age_of, compute_chronological_age, compute_corrected_age, corrected_age_of,
    correction_in_range, ChronologicalAge, CorrectedAge, FULL_TERM_DAYS,
};
use crate::date::{days_between, Date, MAX_YEAR};
use chrono::Datelike;
use vstd::prelude::*;

verus! {

/// The numeric fields of a request.
#[derive(Clone, Copy, Debug, PartialEq, Eq, Structural)]
pub enum NumericField {
    GestationalWeeks,
    GestationalDays,
}

/// Why a request was refused.
#[derive(Clone, Copy, Debug, PartialEq, Eq, Structural)]
pub enum InputError {
    /// The birth date is not a day/month/year date.
    InvalidDateFormat,
    /// A numeric field is not an integer.
    InvalidNumericField(NumericField),
    /// The corrected birth date would lie past the last supported date.
    CorrectionOutOfRange,
}

/// Both ages for one request.
#[derive(Clone, Copy, Debug, PartialEq, Eq, Structural)]
pub struct AgeReport {
    pub chronological: ChronologicalAge,
    pub corrected: CorrectedAge,
}

/// The date that `chrono::NaiveDate::parse_from_str(s, fmt)` reads, as (year,
/// month, day), or `None` where it refuses `s`.
pub uninterp spec fn parsed_date(s: Seq<char>, fmt: Seq<char>) -> Option<(int, int, int)>;

/// Whether `c` is an ASCII decimal digit.
pub open spec fn is_decimal_digit(c: char) -> bool {
    '0' <= c <= '9'
}

/// The value of a string of decimal digits.
pub open spec fn digits_value(s: Seq<char>) -> int
    decreases s.len(),
{
    if s.len() == 0 {
        0
    } else {
        10 * digits_value(s.drop_last()) + (s.last() as int - '0' as int)
    }
}

/// The value of an optional `+` or `-` followed by one or more decimal
/// digits, where it fits in an `i32`; `None` for any other text.
pub open spec fn decimal_i32(s: Seq<char>) -> Option<int> {
    let negative = s.len() > 0 && s[0] == '-';
    let digits = if s.len() > 0 && (s[0] == '-' || s[0] == '+') {
        s.drop_first()
    } else {
        s
    };
    let v = if negative {
        -digits_value(digits)
    } else {
        digits_value(digits)
    };
    if digits.len() > 0 && (forall|i: int| 0 <= i < digits.len() ==> is_decimal_digit(digits[i]))
        && i32::MIN <= v <= i32::MAX {
        Some(v)
    } else {
        None
    }
}

/// What `compute_ages(birth, weeks, days, today)` returns: both ages, or the
/// error for a corrected birth date past the last supported date.
pub open spec fn ages_of(
    birth: Date,
    gestational_weeks: int,
    gestational_days: int,
    today: Date,
) -> Result<AgeReport, InputError> {
    if correction_in_range(birth, gestational_weeks, gestational_days) {
        Ok(
            AgeReport {
                chronological: chronological_age_of(birth, today),
                corrected: corrected_age_of(birth, today, gestational_weeks, gestational_days),
            },
        )
    } else {
        Err(InputError::CorrectionOutOfRange)
    }
}

/// What `calculate(birth, weeks, days, today)` returns, over the text of the
/// three fields. The fields are read in order, and the first that cannot be
/// read gives the error.
pub open spec fn report_of(
    birth_text: Seq<char>,
    weeks_text: Seq<char>,
    days_text: Seq<char>,
    today: Date,
) -> Result<AgeReport, InputError> {
    match parsed_date(birth_text, "%d/%m/%Y"@) {
        None => Err(InputError::InvalidDateFormat),
        Some((y, m, d)) => match decimal_i32(weeks_text) {
            None => Err(InputError::InvalidNumericField(NumericField::GestationalWeeks)),
            Some(w) => match decimal_i32(days_text) {
                None => Err(InputError::InvalidNumericField(NumericField::GestationalDays)),
                Some(g) => ages_of(
                    Date { year: y as i32, month: m as u32, day: d as u32 },
                    w,
                    g,
                    today,
                ),
            },
        },
    }
}

/// Relies on chrono's `NaiveDate::parse_from_str`: it reads a date from `s` by
/// the format `fmt` or refuses it, and depends on its arguments alone; a date
/// it returns is a `NaiveDate`, so it exists and lies in the supported range.
#[verifier::external_body]
fn parse_date(s: &str, fmt: &str) -> (r: Option<Date>)
    ensures
        r is Some <==> parsed_date(s@, fmt@) is Some,
        r is Some ==> r->0.is_valid() && parsed_date(s@, fmt@) == Some(
            (r->0.year as int, r->0.month as int, r->0.day as int),
        ),
{
    match chrono::NaiveDate::parse_from_str(s, fmt) {
        Ok(d) => Some(Date { year: d.year(), month: d.month(), day: d.day() }),
        Err(_) => None,
    }
}

/// Relies on `str::parse::<i32>` (`i32::from_str`): an optional `+` or `-`
/// followed by decimal digits only, whose value fits in an `i32`; anything
/// else, the empty string and a lone sign included, is an error.
#[verifier::external_body]
fn parse_i32(s: &str) -> (r: Option<i32>)
    ensures
        r is Some <==> decimal_i32(s@) is Some,
        r is Some ==> r->0 == decimal_i32(s@)->0,
{
    s.parse::<i32>().ok()
}

/// Relies on chrono's `Utc::now` and `DateTime::date_naive`: today's date in
/// UTC, which differs from call to call; it is a `NaiveDate`, so it is valid.
#[verifier::external_body]
fn today_utc() -> (r: Date)
    ensures
        r.is_valid(),
{
    let t = chrono::Utc::now().date_naive();
    Date { year: t.year(), month: t.month(), day: t.day() }
}

/// Reads the birth date (day/month/year, as `25/12/2023`) and the gestational
/// age at birth in weeks and days, and computes both ages at `today`.
pub fn calculate(
    birth_date: &str,
    gestational_weeks: &str,
    gestational_days: &str,
    today: Date,
) -> (r: Result<AgeReport, InputError>)
    requires
        today.is_valid(),
    ensures
        r == report_of(birth_date@, gestational_weeks@, gestational_days@, today),
{
    let birth = match parse_date(birth_date, "%d/%m/%Y") {
        Some(d) => d,
        None => {
            return Err(InputError::InvalidDateFormat);
        },
    };
    let weeks = match parse_i32(gestational_weeks) {
        Some(w) => w,
        None => {
            return Err(InputError::InvalidNumericField(NumericField::GestationalWeeks));
        },
    };
    let days = match parse_i32(gestational_days) {
        Some(g) => g,
        None => {
            return Err(InputError::InvalidNumericField(NumericField::GestationalDays));
        },
    };
    compute_ages(birth, weeks, days, today)
}

/// Both ages at `today` for a birth on `birth` at `gestational_weeks` weeks
/// and `gestational_days` days of gestation; an error where the corrected
/// birth date would lie past the last supported date.
pub fn compute_ages(
    birth: Date,
    gestational_weeks: i32,
    gestational_days: i32,
    today: Date,
) -> (r: Result<AgeReport, InputError>)
    requires
        birth.is_valid(),
        today.is_valid(),
    ensures
        r == ages_of(birth, gestational_weeks as int, gestational_days as int, today),
{
    let prematurity: i64 = FULL_TERM_DAYS - (gestational_weeks as i64 * 7
        + gestational_days as i64);
    if prematurity > 0 {
        let last = Date { year: MAX_YEAR, month: 12, day: 31 };
        if days_between(birth, last) < prematurity {
            return Err(InputError::CorrectionOutOfRange);
        }
    }
    let chronological = compute_chronological_age(birth, today);
    let corrected = compute_corrected_age(birth, today, gestational_weeks, gestational_days);
    Ok(AgeReport { chronological, corrected })
}

/// `calculate` at today's date in UTC: the result is that of `calculate` for
/// some valid date, so the errors are exactly those of `calculate`.
pub fn calculate_today(
    birth_date: &str,
    gestational_weeks: &str,
    gestational_days: &str,
) -> (r: Result<AgeReport, InputError>)
    ensures
        exists|today: Date|
            today.is_valid() && r == report_of(
                birth_date@,
                gestational_weeks@,
                gestational_days@,
                today,
            ),
{
    let today = today_utc();
    calculate(birth_date, gestational_weeks, gestational_days, today)
}

} // verus!
