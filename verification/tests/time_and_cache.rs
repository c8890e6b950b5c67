use ccometixline::segments::is_fresh_at;
use ccometixline::utils::time::Instant;

const JAN1: i64 = 1704067200;

fn at(secs: i64, nanos: u32) -> Instant {
    Instant { secs, nanos }
}

#[test]
fn freshness_counts_whole_seconds() {
    let cached_at = "2024-01-01T00:00:00Z";
    assert!(is_fresh_at(cached_at, &at(JAN1 + 299, 999_999_999), 300));
    assert!(!is_fresh_at(cached_at, &at(JAN1 + 300, 0), 300));
    assert!(!is_fresh_at(cached_at, &at(JAN1 + 5, 0), 0));
}

#[test]
fn freshness_reads_offsets_and_fractions() {
    // 01:30:00.5 at +01:30 is half a second past midnight UTC
    let cached_at = "2024-01-01T01:30:00.5+01:30";
    assert!(is_fresh_at(cached_at, &at(JAN1 + 10, 400_000_000), 10));
    assert!(!is_fresh_at(cached_at, &at(JAN1 + 10, 500_000_000), 10));
}

#[test]
fn freshness_rounds_toward_zero_when_the_clock_is_behind() {
    let cached_at = "2024-01-01T00:00:00Z";
    // half a second behind counts as no time passed, which is not fewer than 0
    assert!(!is_fresh_at(cached_at, &at(JAN1 - 1, 500_000_000), 0));
    // a hundred seconds behind counts as -100
    assert!(is_fresh_at(cached_at, &at(JAN1 - 101, 500_000_000), 0));
}

#[test]
fn freshness_of_a_leap_second() {
    let cached_at = "2016-12-31T23:59:60Z";
    assert!(is_fresh_at(cached_at, &at(1483228800, 0), 1));
    assert!(!is_fresh_at(cached_at, &at(1483228802, 0), 1));
}

#[test]
fn freshness_with_huge_max_age() {
    let cached_at = "2024-01-01T00:00:00Z";
    // a maximum age beyond i64::MAX wraps to a negative limit
    assert!(!is_fresh_at(cached_at, &at(JAN1, 0), u64::MAX));
    assert!(is_fresh_at(cached_at, &at(JAN1, 0), i64::MAX as u64));
}

#[test]
fn unparsable_times_are_never_fresh() {
    assert!(!is_fresh_at("not a time", &at(JAN1, 0), 300));
    assert!(!is_fresh_at("2024-13-01T00:00:00Z", &at(JAN1, 0), i64::MAX as u64));
    assert!(!is_fresh_at("24-01-01T00:00:00Z", &at(JAN1, 0), i64::MAX as u64));
}

#[test]
fn instants_chrono_represents() {
    assert!(at(JAN1, 0).is_valid());
    assert!(at(JAN1 - 1, 1_500_000_000).is_valid());
    assert!(!at(JAN1, 1_500_000_000).is_valid());
    assert!(!at(JAN1, 2_000_000_000).is_valid());
    assert!(!at(i64::MAX, 0).is_valid());
    assert!(!at(i64::MIN, 0).is_valid());
    assert!(at(-1, 1_999_999_999).is_valid());
}

#[test]
fn freshness_across_a_leap_second() {
    // the leap second itself, seen from the next day's first seconds
    let cached_at = "2016-12-31T23:59:60.5Z";
    assert!(is_fresh_at(cached_at, &at(1483228800, 0), 1));
    assert!(!is_fresh_at(cached_at, &at(1483228801, 500_000_000), 1));
}

#[test]
fn longer_max_age_keeps_entries_fresh() {
    let cached_at = "2024-01-01T00:00:00Z";
    let now = at(JAN1 + 100, 0);
    assert!(is_fresh_at(cached_at, &now, 101));
    assert!(is_fresh_at(cached_at, &now, 1000));
    assert!(is_fresh_at(cached_at, &now, i64::MAX as u64));
}

#[test]
fn stale_entries_stay_stale() {
    let cached_at = "2024-01-01T00:00:00Z";
    assert!(!is_fresh_at(cached_at, &at(JAN1 + 60, 0), 60));
    assert!(!is_fresh_at(cached_at, &at(JAN1 + 61, 0), 60));
    assert!(!is_fresh_at(cached_at, &at(JAN1 + 86400, 0), 60));
}
