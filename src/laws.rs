//! Properties that relate the age computations to one another.
use crate::age::{
    chronological_age_of, corrected_age_of, corrected_birth_date, correction_in_range,
    prematurity_days, ChronologicalAge,
};
use crate::date::{lemma_date_exists, lemma_day_number_range, Date};
use vstd::prelude::*;

verus! {

/// The age from a date to the same date is zero in every field.
pub proof fn lemma_same_day_is_zero(d: Date)
    requires
        d.is_valid(),
    ensures
        chronological_age_of(d, d) == (ChronologicalAge {
            years: 0,
            months: 0,
            days: 0,
            total_days: 0,
            total_weeks: 0,
            total_months: 0,
        }),
{
}

/// For an infant born at or after full term (40 weeks and 0 days, or later),
/// the corrected age has the years, months, days, months total and weeks of
/// the chronological age.
pub proof fn lemma_full_term_is_chronological(
    birth: Date,
    reference: Date,
    gestational_weeks: int,
    gestational_days: int,
)
    requires
        birth.is_valid(),
        reference.is_valid(),
        gestational_weeks * 7 + gestational_days >= 280,
    ensures
        ({
            let c = chronological_age_of(birth, reference);
            let k = corrected_age_of(birth, reference, gestational_weeks, gestational_days);
            &&& k.years == c.years
            &&& k.months == c.months
            &&& k.days == c.days
            &&& k.total_months == c.total_months
            &&& k.weeks == c.total_weeks
        }),
{
}

/// Fewer weeks of gestation (a more premature birth) never means fewer
/// prematurity days, nor more weeks or days of corrected age at the same
/// reference date; and the corrected age in weeks and in days never exceeds
/// the chronological age, for a reference date on or after the birth date.
pub proof fn lemma_prematurity_shift_monotone(
    birth: Date,
    reference: Date,
    fewer_weeks: int,
    more_weeks: int,
    gestational_days: int,
)
    requires
        birth.is_valid(),
        reference.is_valid(),
        reference.day_number() >= birth.day_number(),
        fewer_weeks <= more_weeks,
        correction_in_range(birth, fewer_weeks, gestational_days),
    ensures
        ({
            let c = chronological_age_of(birth, reference);
            let k1 = corrected_age_of(birth, reference, fewer_weeks, gestational_days);
            let k2 = corrected_age_of(birth, reference, more_weeks, gestational_days);
            &&& prematurity_days(fewer_weeks, gestational_days) >= prematurity_days(
                more_weeks,
                gestational_days,
            )
            &&& k1.weeks <= k2.weeks <= c.total_weeks
            &&& k1.weeks * 7 + k1.days_in_week <= k2.weeks * 7 + k2.days_in_week
            &&& k2.weeks * 7 + k2.days_in_week <= c.total_days
        }),
{
    lemma_day_number_range(birth);
    lemma_day_number_range(reference);
    let p1 = prematurity_days(fewer_weeks, gestational_days);
    let p2 = prematurity_days(more_weeks, gestational_days);
    if p1 > 0 {
        lemma_date_exists(birth.day_number() + p1);
        let s1 = corrected_birth_date(birth, fewer_weeks, gestational_days);
        assert(s1.day_number() == birth.day_number() + p1);
    }
    if p2 > 0 {
        lemma_date_exists(birth.day_number() + p2);
        let s2 = corrected_birth_date(birth, more_weeks, gestational_days);
        assert(s2.day_number() == birth.day_number() + p2);
    }
}

} // verus!
