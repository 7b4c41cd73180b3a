//! Ages, and the limits of time.

use deletion::clock::{can_go_back, is_within, FIRST_SECOND, LAST_SECOND, SECONDS_PER_DAY};
use deletion::objects::Timestamp;

fn at(secs: i64, nanos: u32) -> Timestamp {
    Timestamp { secs, nanos }
}

#[test]
fn age_is_counted_in_days_of_seconds() {
    // 2024-02-29 12:00:00 UTC, and the days before it.
    let now = at(1_709_208_000, 0);
    assert!(is_within(at(1_709_208_000 - 86_399, 0), now, 1));
    assert!(!is_within(at(1_709_208_000 - 86_400, 0), now, 1));
    assert!(is_within(at(1_709_208_000 - 86_400, 1), now, 1));
    assert!(!is_within(at(1_709_208_000 - 86_401, 999_999_999), now, 1));
    assert!(is_within(at(1_709_208_000 - 364 * 86_400, 0), now, 365));
    assert!(!is_within(at(1_709_208_000 - 365 * 86_400, 0), now, 365));
}

#[test]
fn zero_days_reach_only_into_the_future() {
    let now = at(1_000, 5);
    assert!(!is_within(now, now, 0));
    assert!(!is_within(at(999, 0), now, 0));
    assert!(is_within(at(1_000, 6), now, 0));
    assert!(is_within(at(2_000, 0), now, 0));
}

#[test]
fn more_days_reach_at_least_as_far() {
    let now = at(1_700_000_000, 0);
    let published = at(1_700_000_000 - 5 * 86_400, 0);
    for days in 0..6 {
        assert!(!is_within(published, now, days));
    }
    for days in 6..20 {
        assert!(is_within(published, now, days));
    }
}

#[test]
fn time_before_the_epoch_is_time_too() {
    let now = at(10, 0);
    assert!(is_within(at(-86_389, 0), now, 1));
    assert!(!is_within(at(-86_390, 0), now, 1));
}

#[test]
fn nobody_can_go_back_beyond_the_first_second() {
    assert!(can_go_back(at(FIRST_SECOND + SECONDS_PER_DAY, 0), 1));
    assert!(!can_go_back(at(FIRST_SECOND + SECONDS_PER_DAY - 1, 0), 1));
    assert!(can_go_back(at(FIRST_SECOND, 0), 0));
    assert!(!can_go_back(at(1_700_000_000, 0), u64::MAX));
    assert!(can_go_back(at(LAST_SECOND, 0), 191_491_528));
    assert!(!can_go_back(at(LAST_SECOND, 0), 191_491_529));
}

#[test]
fn the_limits_are_reached() {
    let first = at(FIRST_SECOND, 0);
    let next = at(FIRST_SECOND + SECONDS_PER_DAY, 0);
    assert!(!is_within(first, next, 1));
    assert!(is_within(at(FIRST_SECOND, 1), next, 1));
    assert!(is_within(at(LAST_SECOND, 999_999_999), at(LAST_SECOND, 0), 0));
    assert!(is_within(at(LAST_SECOND, 0), at(LAST_SECOND, 999_999_999), 1));
}

#[test]
fn leap_seconds_are_valid_at_the_end_of_a_minute_only() {
    assert!(at(59, 1_500_000_000).valid());
    assert!(!at(58, 1_500_000_000).valid());
    assert!(at(-1, 1_999_999_999).valid());
    assert!(!at(59, 2_000_000_000).valid());
    assert!(!at(LAST_SECOND + 1, 0).valid());
    assert!(!at(FIRST_SECOND - 1, 0).valid());
    assert!(at(FIRST_SECOND, 0).valid());
    assert!(at(LAST_SECOND, 0).valid());
    // The leap second is kept on the way back.
    assert!(!is_within(at(59, 1_500_000_000), at(86_459, 1_500_000_000), 1));
    assert!(is_within(at(59, 1_500_000_001), at(86_459, 1_500_000_000), 1));
}

#[test]
fn things_are_left_behind_as_time_goes_by() {
    let published = at(1_000_000, 0);
    let mut was_within = true;
    for hours in 0..100 {
        let within = is_within(published, at(1_000_000 + 3_600 * hours, 0), 2);
        assert_eq!(within, hours < 48);
        assert!(was_within || !within);
        was_within = within;
    }
}

#[test]
fn order_of_time() {
    assert!(at(2, 0).after(at(1, 999_999_999)));
    assert!(at(1, 1).after(at(1, 0)));
    assert!(!at(1, 0).after(at(1, 0)));
    assert!(!at(1, 0).after(at(2, 0)));
}
