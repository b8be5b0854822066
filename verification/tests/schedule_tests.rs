use chrono::Datelike;
use synchrony_vc::calendar::{civil_from_days, is_leap, parse_increment, SECONDS_PER_YEAR};
use synchrony_vc::schedule::{parse_releases, Group};

const UNIT: u64 = 1_000_000_000;
const START: u32 = 1_640_995_200; // 2022-01-01 00:00:00 UTC

fn total(amount_display: u64, period_count: usize, group: Group) -> u64 {
    let releases = parse_releases(amount_display * UNIT, UNIT, period_count, group, START);
    assert_eq!(releases.len(), period_count);
    releases.iter().fold(0u64, |a, b| a + b.quantity)
}

#[test]
fn test_vested_qty() {
    assert_eq!(total(5_000_000, 24, Group::Private), 5_000_000 * UNIT);
}

#[test]
fn test_vested_p1_even() {
    assert_eq!(total(123_456, 21, Group::Private), 123_456 * UNIT);
}

#[test]
fn test_vested_p1_odd() {
    assert_eq!(total(98_765, 21, Group::Private), 98_765 * UNIT);
}

#[test]
fn test_vested_p2_even() {
    assert_eq!(total(212_328, 18, Group::Private), 212_328 * UNIT);
}

#[test]
fn test_vested_p2_odd() {
    assert_eq!(total(299_999, 18, Group::Private), 299_999 * UNIT);
}

#[test]
fn test_team_vesting_qty() {
    assert_eq!(total(100_000, 24, Group::Team), 100_000 * UNIT);
}

#[test]
fn team_vesting_duration() {
    let releases = parse_releases(100_000 * UNIT, UNIT, 24, Group::Team, START);
    assert_eq!(releases[0].timestamp, START + SECONDS_PER_YEAR);
}

#[test]
fn private_first_release_at_start() {
    let releases = parse_releases(123_456 * UNIT, UNIT, 21, Group::Private, START);
    assert_eq!(releases[0].timestamp, START);
}

#[test]
fn private_quantities_exact() {
    // 123456 over 21 releases: a tenth up front, twenty even releases of
    // 5555 whole units, the last absorbing the 0.52-per-release drift.
    let releases = parse_releases(123_456 * UNIT, UNIT, 21, Group::Private, START);
    assert_eq!(releases[0].quantity, 12_345_600_000_000);
    for i in 1..20 {
        assert_eq!(releases[i].quantity, 5_555_000_000_000);
    }
    assert_eq!(releases[20].quantity, 5_565_400_000_000);
    let sum: u64 = releases.iter().map(|r| r.quantity).sum();
    assert_eq!(sum, 123_456 * UNIT);
}

#[test]
fn team_quantities_exact() {
    let releases = parse_releases(100_000 * UNIT, UNIT, 24, Group::Team, START);
    for i in 0..23 {
        assert_eq!(releases[i].quantity, 4_166_000_000_000);
    }
    assert_eq!(releases[23].quantity, 4_182_000_000_000);
}

#[test]
fn single_period_gets_everything() {
    let releases = parse_releases(7 * UNIT + 3, UNIT, 1, Group::Private, START);
    assert_eq!(releases.len(), 1);
    assert_eq!(releases[0].quantity, 7 * UNIT + 3);
    let releases = parse_releases(7 * UNIT + 3, UNIT, 1, Group::Team, START);
    assert_eq!(releases[0].quantity, 7 * UNIT + 3);
}

#[test]
fn monthly_gaps_follow_the_calendar() {
    // From 2024-02-15: a leap-year February spans 29 days, then March 31.
    let feb15: u32 = 1_707_955_200;
    let releases = parse_releases(900 * UNIT, UNIT, 3, Group::Private, feb15);
    assert_eq!(releases[0].timestamp, feb15);
    assert_eq!(releases[1].timestamp, feb15 + 29 * 86400);
    assert_eq!(releases[2].timestamp, feb15 + 29 * 86400 + 31 * 86400);
}

#[test]
fn increments_by_month() {
    let jan10_2021: u32 = 1_610_236_800;
    let feb1_2021: u32 = 1_612_137_600;
    let feb15_2024: u32 = 1_707_955_200;
    assert_eq!(parse_increment(jan10_2021), 31 * 86400);
    assert_eq!(parse_increment(feb1_2021), 28 * 86400);
    assert_eq!(parse_increment(feb15_2024), 29 * 86400);
}

#[test]
fn leap_year_rule() {
    assert!(is_leap(2024));
    assert!(!is_leap(2023));
    assert!(is_leap(2000));
    assert!(!is_leap(1900));
    assert!(!is_leap(2100));
}

#[test]
fn civil_dates_match_chrono() {
    for days in [0u32, 59, 365, 19768, 19723, 40000, 49710] {
        let d = civil_from_days(days);
        let expected = chrono::DateTime::from_timestamp(days as i64 * 86400, 0).unwrap();
        assert_eq!(d.year, expected.year());
        assert_eq!(d.month as u32, expected.month());
        assert_eq!(d.day as u32, expected.day());
    }
}
