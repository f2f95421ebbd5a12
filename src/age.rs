//! Chronological age, and age corrected for prematurity.
use crate::date::{
    add_days, date_with_day_number, days_between, lemma_date_with_day_number,
    lemma_day_number_range, lemma_range_ends, max_day_number, min_day_number, Date,
};
use vstd::prelude::*;

verus! {

/// Gestational age at birth of an infant born at full term: 40 weeks.
pub const FULL_TERM_DAYS: i64 = 280;

/// Age from a birth date to a reference date.
#[derive(Clone, Copy, Debug, PartialEq, Eq, Structural)]
pub struct ChronologicalAge {
    /// Calendar breakdown: years, months and days, by borrowing.
    pub years: i32,
    pub months: i32,
    pub days: i32,
    /// Exact signed number of days from birth to the reference date.
    pub total_days: i64,
    /// `total_days / 7`, truncated toward zero.
    pub total_weeks: i64,
    /// `total_days / 30.4375` (the mean Gregorian month), rounded down.
    pub total_months: i64,
}

/// Age corrected for prematurity.
#[derive(Clone, Copy, Debug, PartialEq, Eq, Structural)]
pub struct CorrectedAge {
    /// Calendar breakdown from the corrected birth date.
    pub years: i32,
    pub months: i32,
    pub days: i32,
    /// Whole weeks of corrected age.
    pub weeks: i64,
    /// Days beyond the whole weeks.
    pub days_in_week: i64,
    /// Months of corrected age, by the mean Gregorian month.
    pub total_months: i64,
}

/// The calendar breakdown (years, months, days) from `birth` to `reference`:
/// subtract field by field; a negative day count borrows the length of the
/// month before the reference date's month, then a negative month count
/// borrows twelve months.
pub open spec fn calendar_breakdown(birth: Date, reference: Date) -> (int, int, int) {
    let years = reference.year - birth.year;
    let months = reference.month - birth.month;
    let days = reference.day - birth.day;
    let (months, days) = if days < 0 {
        (months - 1, days + reference.days_in_previous_month())
    } else {
        (months, days)
    };
    if months < 0 {
        (years - 1, months + 12, days)
    } else {
        (years, months, days)
    }
}

/// `t / 7` truncated toward zero.
pub open spec fn truncated_weeks(t: int) -> int {
    if t >= 0 {
        t / 7
    } else {
        -((-t) / 7)
    }
}

/// The remainder of `t / 7` truncated toward zero: it has the sign of `t`.
pub open spec fn truncated_week_remainder(t: int) -> int {
    t - 7 * truncated_weeks(t)
}

/// `t / 30.4375` rounded down; 30.4375 is 487 / 16.
pub open spec fn mean_months(t: int) -> int {
    (16 * t) / 487
}

/// What `compute_chronological_age(birth, reference)` returns.
pub open spec fn chronological_age_of(birth: Date, reference: Date) -> ChronologicalAge {
    let (y, m, d) = calendar_breakdown(birth, reference);
    let t = reference.day_number() - birth.day_number();
    ChronologicalAge {
        years: y as i32,
        months: m as i32,
        days: d as i32,
        total_days: t as i64,
        total_weeks: truncated_weeks(t) as i64,
        total_months: mean_months(t) as i64,
    }
}

/// Days between birth and full term: `280 - (weeks * 7 + days)`; zero or less
/// for an infant born at or after full term.
pub open spec fn prematurity_days(gestational_weeks: int, gestational_days: int) -> int {
    FULL_TERM_DAYS - (gestational_weeks * 7 + gestational_days)
}

/// The date the infant would have reached full term: the birth date moved
/// forward by the prematurity days.
pub open spec fn corrected_birth_date(
    birth: Date,
    gestational_weeks: int,
    gestational_days: int,
) -> Date {
    date_with_day_number(birth.day_number() + prematurity_days(gestational_weeks, gestational_days))
}

/// The corrected birth date of a preterm infant lies in the supported range of
/// dates (there is nothing to move for others).
pub open spec fn correction_in_range(
    birth: Date,
    gestational_weeks: int,
    gestational_days: int,
) -> bool {
    let p = prematurity_days(gestational_weeks, gestational_days);
    p > 0 ==> birth.day_number() + p <= max_day_number()
}

/// What `compute_corrected_age(birth, reference, weeks, days)` returns.
/// At or after full term it is the chronological age, with the weeks and the
/// signed remainder of its day count. Before full term the calendar breakdown
/// and months are those of the chronological age from the corrected birth
/// date, and the weeks and remainder come from the days since that date,
/// counted as zero while it lies ahead.
pub open spec fn corrected_age_of(
    birth: Date,
    reference: Date,
    gestational_weeks: int,
    gestational_days: int,
) -> CorrectedAge {
    if prematurity_days(gestational_weeks, gestational_days) <= 0 {
        let c = chronological_age_of(birth, reference);
        CorrectedAge {
            years: c.years,
            months: c.months,
            days: c.days,
            weeks: c.total_weeks,
            days_in_week: truncated_week_remainder(c.total_days as int) as i64,
            total_months: c.total_months,
        }
    } else {
        let s = corrected_birth_date(birth, gestational_weeks, gestational_days);
        let c = chronological_age_of(s, reference);
        let since = reference.day_number() - s.day_number();
        let t = if since < 0 {
            0
        } else {
            since
        };
        CorrectedAge {
            years: c.years,
            months: c.months,
            days: c.days,
            weeks: (t / 7) as i64,
            days_in_week: (t % 7) as i64,
            total_months: c.total_months,
        }
    }
}

/// The age from `birth` to `reference`: calendar breakdown, exact day count,
/// and that count in weeks (truncated) and in mean months (rounded down).
/// A reference date before the birth date gives a negative day count; the
/// breakdown is then computed by the same rule.
pub fn compute_chronological_age(birth: Date, reference: Date) -> (r: ChronologicalAge)
    requires
        birth.is_valid(),
        reference.is_valid(),
    ensures
        r == chronological_age_of(birth, reference),
{
    let mut years: i32 = reference.year - birth.year;
    let mut months: i32 = reference.month as i32 - birth.month as i32;
    let mut days: i32 = reference.day as i32 - birth.day as i32;
    if days < 0 {
        months = months - 1;
        days = days + reference.previous_month_length() as i32;
    }
    if months < 0 {
        years = years - 1;
        months = months + 12;
    }
    let total_days = days_between(birth, reference);
    proof {
        lemma_day_number_range(birth);
        lemma_day_number_range(reference);
    }
    ChronologicalAge {
        years,
        months,
        days,
        total_days,
        total_weeks: total_days / 7,
        total_months: mean_months_of(total_days),
    }
}

/// `t / 30.4375` rounded down, for day counts within the range of dates.
fn mean_months_of(t: i64) -> (r: i64)
    requires
        min_day_number() - max_day_number() <= t <= max_day_number() - min_day_number(),
    ensures
        r == mean_months(t as int),
{
    proof {
        lemma_range_ends();
    }
    if t >= 0 {
        (16 * t) / 487
    } else {
        let u: i64 = -t;
        -((16 * u + 486) / 487)
    }
}

/// The age from `birth` to `reference`, corrected for a birth at
/// `gestational_weeks` weeks and `gestational_days` days of gestation.
pub fn compute_corrected_age(
    birth: Date,
    reference: Date,
    gestational_weeks: i32,
    gestational_days: i32,
) -> (r: CorrectedAge)
    requires
        birth.is_valid(),
        reference.is_valid(),
        correction_in_range(birth, gestational_weeks as int, gestational_days as int),
    ensures
        r == corrected_age_of(birth, reference, gestational_weeks as int, gestational_days as int),
{
    let total_gestational_days: i64 = gestational_weeks as i64 * 7 + gestational_days as i64;
    let prematurity: i64 = FULL_TERM_DAYS - total_gestational_days;
    if prematurity <= 0 {
        let c = compute_chronological_age(birth, reference);
        return CorrectedAge {
            years: c.years,
            months: c.months,
            days: c.days,
            weeks: c.total_weeks,
            days_in_week: c.total_days % 7,
            total_months: c.total_months,
        };
    }
    proof {
        lemma_day_number_range(birth);
    }
    let shifted = add_days(birth, prematurity);
    proof {
        lemma_date_with_day_number(shifted);
    }
    let c = compute_chronological_age(shifted, reference);
    let since = days_between(shifted, reference);
    let t: i64 = if since < 0 {
        0
    } else {
        since
    };
    CorrectedAge {
        years: c.years,
        months: c.months,
        days: c.days,
        weeks: t / 7,
        days_in_week: t % 7,
        total_months: c.total_months,
    }
}

} // verus!
