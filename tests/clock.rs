use tibber_status::clock::{next_wake_secs, tomorrow_tag, wake_delay_secs, ScheduleError};

const DAY: u64 = 86400;
const HOUR: u64 = 3600;

#[test]
fn afternoon_wakes_next_morning() {
    // 2024-05-01 15:00 UTC
    let d = 19844u64;
    let now = d * DAY + 15 * HOUR;
    assert!(matches!(next_wake_secs(now, 11), Ok(t) if t == (d + 1) * DAY + 11 * HOUR));
    assert!(matches!(wake_delay_secs(now, 11), Ok(72000)));
}

#[test]
fn early_morning_still_waits_a_day() {
    let now = 100 * DAY + 5 * HOUR;
    assert!(matches!(next_wake_secs(now, 11), Ok(t) if t == 101 * DAY + 11 * HOUR));
    assert!(matches!(wake_delay_secs(now, 11), Ok(108000)));
}

#[test]
fn hour_out_of_range() {
    assert!(matches!(next_wake_secs(0, 24), Err(ScheduleError::HourOutOfRange)));
    assert!(matches!(wake_delay_secs(0, 99), Err(ScheduleError::HourOutOfRange)));
}

#[test]
fn clock_overflow() {
    assert!(matches!(next_wake_secs(u64::MAX - 10, 0), Err(ScheduleError::ClockOverflow)));
}

#[test]
fn tomorrow_tag_is_next_midnight() {
    let now = 19844 * DAY + 15 * HOUR;
    assert_eq!(tomorrow_tag(now).unwrap(), "2024-05-02T00:00:00+00:00");
    assert_eq!(tomorrow_tag(0).unwrap(), "1970-01-02T00:00:00+00:00");
}

#[test]
fn tomorrow_tag_out_of_range() {
    assert!(tomorrow_tag(u64::MAX).is_none());
}

#[test]
fn tomorrow_tag_at_end_of_year_9999() {
    // 9999-12-30 12:00 UTC: the next midnight is 9999-12-31.
    let now = 253_402_300_799 - DAY - 12 * HOUR + 1;
    assert_eq!(tomorrow_tag(now).unwrap(), "9999-12-31T00:00:00+00:00");
}
