use mithra::billing::{
    billing_period_at, billing_period_for, current_biling_period, month_of, period_instants,
    BillingPeriod, Instants, YearMonth,
};

fn ym(year: i32, month: u32) -> YearMonth {
    YearMonth { year, month }
}

fn period(start: YearMonth, end: YearMonth) -> BillingPeriod {
    BillingPeriod { start, end }
}

#[test]
fn first_period_starts_with_the_contract() {
    assert_eq!(billing_period_at(ym(2024, 1), 6, ym(2024, 1)), period(ym(2024, 1), ym(2024, 7)));
    assert_eq!(billing_period_at(ym(2024, 1), 6, ym(2024, 6)), period(ym(2024, 1), ym(2024, 7)));
}

#[test]
fn period_rolls_forward_until_it_holds_the_month() {
    assert_eq!(billing_period_at(ym(2024, 1), 6, ym(2024, 7)), period(ym(2024, 7), ym(2025, 1)));
    assert_eq!(billing_period_at(ym(2024, 1), 6, ym(2026, 3)), period(ym(2026, 1), ym(2026, 7)));
    assert_eq!(billing_period_at(ym(2020, 11), 5, ym(2024, 2)), period(ym(2023, 10), ym(2024, 3)));
}

#[test]
fn period_may_span_years() {
    assert_eq!(billing_period_at(ym(2024, 11), 3, ym(2024, 12)), period(ym(2024, 11), ym(2025, 2)));
    assert_eq!(billing_period_at(ym(2024, 3), 12, ym(2024, 5)), period(ym(2024, 3), ym(2025, 3)));
    assert_eq!(billing_period_at(ym(2024, 3), 30, ym(2024, 5)), period(ym(2024, 3), ym(2026, 9)));
    assert_eq!(billing_period_at(ym(2024, 12), 1, ym(2024, 12)), period(ym(2024, 12), ym(2025, 1)));
}

#[test]
fn before_the_contract_the_first_period_counts() {
    assert_eq!(billing_period_at(ym(2030, 4), 6, ym(2024, 1)), period(ym(2030, 4), ym(2030, 10)));
}

#[test]
fn period_holds_its_month_and_has_the_contracts_length() {
    let index = |m: YearMonth| m.year as i64 * 12 + m.month as i64 - 1;
    for months in [1u32, 2, 5, 6, 12, 13, 100] {
        for now_month in 1..=12 {
            for now_year in [2024, 2025, 2031] {
                let now = ym(now_year, now_month);
                let p = billing_period_at(ym(2024, 1), months, now);
                assert_eq!(index(p.end), index(p.start) + months as i64);
                assert!(index(p.start) <= index(now) && index(now) < index(p.end));
                assert_eq!((index(p.start) - index(ym(2024, 1))) % months as i64, 0);
            }
        }
    }
}

#[test]
fn longest_period_still_has_an_end() {
    let p = billing_period_at(ym(262_142, 12), u32::MAX, ym(262_142, 12));
    assert_eq!(p.start, ym(262_142, 12));
    assert_eq!(p.end, ym(358_176_084, 3));
}

#[test]
fn period_is_found_only_for_a_proper_contract_and_a_known_month() {
    let now = Some(ym(2024, 3));
    assert_eq!(billing_period_for(2024, 1, 6, now), Some(period(ym(2024, 1), ym(2024, 7))));
    assert_eq!(billing_period_for(2024, 0, 6, now), None);
    assert_eq!(billing_period_for(2024, 13, 6, now), None);
    assert_eq!(billing_period_for(2024, 1, 0, now), None);
    assert_eq!(billing_period_for(-1, 1, 6, now), None);
    assert_eq!(billing_period_for(262_143, 1, 6, now), None);
    assert_eq!(billing_period_for(2024, 1, 6, None), None);
}

#[test]
fn calendar_month_of_an_instant_is_read_in_utc() {
    assert_eq!(month_of(0), Some(ym(1970, 1)));
    assert_eq!(month_of(1_710_000_000_000), Some(ym(2024, 3)));
    assert_eq!(month_of(1_704_067_199_999), Some(ym(2023, 12)));
    assert_eq!(month_of(1_704_067_200_000), Some(ym(2024, 1)));
    assert_eq!(month_of(1_709_251_199_999), Some(ym(2024, 2)));
}

#[test]
fn instants_beyond_the_calendar_have_no_month() {
    assert_eq!(month_of(i64::MAX), None);
    assert_eq!(month_of(i64::MIN), None);
    assert_eq!(month_of(-1), Some(ym(1969, 12)));
    assert_eq!(month_of(-62_167_219_200_001), None);
}

#[test]
fn period_lies_between_the_first_instants_of_its_months() {
    assert_eq!(
        period_instants(&period(ym(2024, 1), ym(2024, 7))),
        Some(Instants { start: 1_704_067_200_000, end: 1_719_792_000_000 })
    );
    assert_eq!(
        period_instants(&period(ym(1970, 1), ym(1970, 2))),
        Some(Instants { start: 0, end: 2_678_400_000 })
    );
    assert_eq!(period_instants(&period(ym(2024, 1), ym(2024, 13))), None);
    assert_eq!(period_instants(&period(ym(2024, 0), ym(2024, 7))), None);
    assert_eq!(period_instants(&period(ym(2024, 1), ym(400_000, 7))), None);
}

#[test]
fn period_of_an_instant_holds_the_instant() {
    // 2024-03-09 16:00 UTC.
    let now = 1_710_000_000_000;
    assert_eq!(current_biling_period(2024, 1, 6, now), Some(period(ym(2024, 1), ym(2024, 7))));
    assert_eq!(current_biling_period(2023, 11, 2, now), Some(period(ym(2024, 3), ym(2024, 5))));
    assert_eq!(current_biling_period(2024, 1, 6, 1_719_792_000_000), Some(period(ym(2024, 7), ym(2025, 1))));
    assert_eq!(current_biling_period(2024, 1, 6, 1_719_791_999_999), Some(period(ym(2024, 1), ym(2024, 7))));
    assert_eq!(current_biling_period(2030, 4, 6, now), Some(period(ym(2030, 4), ym(2030, 10))));
}

#[test]
fn no_period_is_found_for_an_improper_contract_or_an_instant_out_of_range() {
    let now = 1_710_000_000_000;
    assert_eq!(current_biling_period(2024, 13, 6, now), None);
    assert_eq!(current_biling_period(2024, 0, 6, now), None);
    assert_eq!(current_biling_period(2024, 1, 0, now), None);
    assert_eq!(current_biling_period(-1, 1, 6, now), None);
    assert_eq!(current_biling_period(2024, 1, 6, i64::MAX), None);
    assert_eq!(current_biling_period(2024, 1, 6, -62_167_219_200_001), None);
}

#[test]
fn months_follow_one_another() {
    assert_eq!(ym(2024, 1).next(), ym(2024, 2));
    assert_eq!(ym(2024, 12).next(), ym(2025, 1));
    assert!(ym(2024, 12).is_before(&ym(2025, 1)));
    assert!(!ym(2025, 1).is_before(&ym(2025, 1)));
    assert!(!ym(2025, 2).is_before(&ym(2025, 1)));
    assert!(ym(2024, 1).is_valid());
    assert!(!ym(2024, 0).is_valid());
    assert!(!ym(-1, 5).is_valid());
}

#[test]
fn period_that_ends_before_it_starts_is_told() {
    assert!(period(ym(2024, 1), ym(2024, 7)).is_well_formed());
    assert!(period(ym(2024, 1), ym(2024, 1)).is_well_formed());
    assert!(!period(ym(2024, 2), ym(2024, 1)).is_well_formed());
    assert!(!period(ym(2024, 0), ym(2024, 1)).is_well_formed());
    assert!(!period(ym(2024, 1), ym(2024, 13)).is_well_formed());
    assert!(!period(ym(-1, 1), ym(2024, 1)).is_well_formed());
}
