use corrected_age::{
    compute_chronological_age, compute_corrected_age, ChronologicalAge, CorrectedAge, Date,
};

fn date(year: i32, month: u32, day: u32) -> Date {
    Date::new(year, month, day).unwrap()
}

#[test]
fn same_day_is_zero() {
    for d in [date(2024, 2, 29), date(1, 1, 1), date(-262143, 1, 1), date(262142, 12, 31)] {
        let a = compute_chronological_age(d, d);
        assert_eq!(
            a,
            ChronologicalAge {
                years: 0,
                months: 0,
                days: 0,
                total_days: 0,
                total_weeks: 0,
                total_months: 0
            }
        );
    }
}

#[test]
fn full_term_matches_chronological() {
    let birth = date(2023, 5, 17);
    let reference = date(2024, 8, 3);
    let c = compute_chronological_age(birth, reference);
    for (w, d) in [(40, 0), (41, 3), (39, 7)] {
        let k = compute_corrected_age(birth, reference, w, d);
        assert_eq!(k.years, c.years);
        assert_eq!(k.months, c.months);
        assert_eq!(k.days, c.days);
        assert_eq!(k.total_months, c.total_months);
        assert_eq!(k.weeks, c.total_weeks);
        assert_eq!(k.days_in_week, c.total_days % 7);
    }
}

#[test]
fn more_premature_never_older() {
    let birth = date(2024, 1, 1);
    let reference = date(2024, 6, 1);
    let c = compute_chronological_age(birth, reference);
    let mut previous: Option<CorrectedAge> = None;
    for w in 20..=42 {
        let k = compute_corrected_age(birth, reference, w, 3);
        assert!(k.weeks <= c.total_weeks);
        assert!(k.weeks * 7 + k.days_in_week <= c.total_days);
        if let Some(p) = previous {
            assert!(p.weeks <= k.weeks);
            assert!(p.weeks * 7 + p.days_in_week <= k.weeks * 7 + k.days_in_week);
        }
        previous = Some(k);
    }
}

#[test]
fn leap_day_birth_one_year_on() {
    // Day 1 of March minus day 29 borrows February 2021 (28 days).
    let a = compute_chronological_age(date(2020, 2, 29), date(2021, 3, 1));
    assert_eq!((a.years, a.months, a.days), (1, 0, 0));
    assert_eq!(a.total_days, 366);
    assert_eq!(a.total_weeks, 52);
    assert_eq!(a.total_months, 12);
}

#[test]
fn borrow_from_short_february() {
    let a = compute_chronological_age(date(2023, 1, 31), date(2023, 3, 1));
    assert_eq!((a.years, a.months, a.days), (0, 1, -2));
    assert_eq!(a.total_days, 29);
    assert_eq!(a.total_weeks, 4);
    assert_eq!(a.total_months, 0);
}

#[test]
fn borrow_then_days_into_march() {
    let a = compute_chronological_age(date(2023, 1, 31), date(2023, 3, 15));
    assert_eq!((a.years, a.months, a.days), (0, 1, 12));
    assert_eq!(a.total_days, 43);
    assert_eq!(a.total_weeks, 6);
    assert_eq!(a.total_months, 1);
}

#[test]
fn borrow_across_year_end() {
    // January borrows December of the previous year (31 days), then a year.
    let a = compute_chronological_age(date(2022, 3, 20), date(2023, 1, 5));
    assert_eq!((a.years, a.months, a.days), (0, 9, 16));
    assert_eq!(a.total_days, 291);
}

#[test]
fn preterm_at_32_weeks() {
    let birth = date(2024, 1, 1);
    let reference = date(2024, 6, 1);
    let k = compute_corrected_age(birth, reference, 32, 0);
    let shifted = compute_chronological_age(date(2024, 2, 26), reference);
    assert_eq!(shifted.total_days, 96);
    assert_eq!(
        k,
        CorrectedAge {
            years: shifted.years,
            months: shifted.months,
            days: shifted.days,
            weeks: 13,
            days_in_week: 5,
            total_months: shifted.total_months
        }
    );
    assert_eq!((k.years, k.months, k.days, k.total_months), (0, 3, 6, 3));
    let c = compute_chronological_age(birth, reference);
    assert_eq!((c.years, c.months, c.days), (0, 5, 0));
    assert_eq!((c.total_days, c.total_weeks, c.total_months), (152, 21, 4));
}

#[test]
fn preterm_before_corrected_birth() {
    // 28 weeks: the corrected birth date is 2024-03-25, after the reference.
    let k = compute_corrected_age(date(2024, 1, 1), date(2024, 2, 1), 28, 0);
    assert_eq!((k.weeks, k.days_in_week), (0, 0));
    let s = compute_chronological_age(date(2024, 3, 25), date(2024, 2, 1));
    assert_eq!((k.years, k.months, k.days), (s.years, s.months, s.days));
    assert_eq!(s.total_days, -53);
    assert_eq!(k.total_months, s.total_months);
    assert_eq!(k.total_months, -2);
}

#[test]
fn reference_before_birth() {
    let a = compute_chronological_age(date(2024, 3, 10), date(2024, 2, 28));
    assert_eq!((a.years, a.months, a.days), (-1, 11, 18));
    assert_eq!(a.total_days, -11);
    assert_eq!(a.total_weeks, -1);
    assert_eq!(a.total_months, -1);
    let k = compute_corrected_age(date(2024, 3, 10), date(2024, 2, 28), 40, 0);
    assert_eq!((k.weeks, k.days_in_week), (-1, -4));
}

#[test]
fn mean_month_boundaries() {
    let birth = date(2024, 1, 1);
    let cases = [(30, 0), (31, 1), (60, 1), (61, 2), (365, 11), (366, 12)];
    for (n, months) in cases {
        let mut d = birth;
        let mut left = n;
        while left > 0 {
            let len = [31, 29, 31, 30, 31, 30, 31, 31, 30, 31, 30, 31][(d.month - 1) as usize];
            if d.day < len {
                d.day += 1;
            } else if d.month < 12 {
                d.month += 1;
                d.day = 1;
            } else {
                d = date(d.year + 1, 1, 1);
            }
            left -= 1;
        }
        let a = compute_chronological_age(birth, d);
        assert_eq!(a.total_days, n);
        assert_eq!(a.total_months, months);
        assert_eq!(a.total_months, (n as f64 / 30.4375).floor() as i64);
        let back = compute_chronological_age(d, birth);
        assert_eq!(back.total_days, -n);
        assert_eq!(back.total_months, (-n as f64 / 30.4375).floor() as i64);
        assert_eq!(back.total_weeks, -n / 7);
    }
}

#[test]
fn repeated_calls_agree() {
    let birth = date(2023, 11, 30);
    let reference = date(2024, 7, 14);
    assert_eq!(
        compute_chronological_age(birth, reference),
        compute_chronological_age(birth, reference)
    );
    assert_eq!(
        compute_corrected_age(birth, reference, 30, 4),
        compute_corrected_age(birth, reference, 30, 4)
    );
}

#[test]
fn far_apart_dates() {
    let a = compute_chronological_age(date(-262143, 1, 1), date(262142, 12, 31));
    assert_eq!(a.total_days, 95745398 + 95746130);
    assert_eq!(a.years, 524285);
    assert_eq!((a.months, a.days), (11, 30));
}
