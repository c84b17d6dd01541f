use rlbuddy::common::timefmt::format_seconds;
use rlbuddy::lobby;
use rlbuddy::text::{chars_of, push_decimal, str_eq, u64_to_string};

#[test]
fn zero_seconds_is_just_now() {
    assert_eq!(format_seconds(0, false), "Just now");
    assert_eq!(format_seconds(0, true), "Just now");
}

#[test]
fn seconds_under_a_minute() {
    assert_eq!(format_seconds(1, false), "1 second");
    assert_eq!(format_seconds(30, false), "30 seconds");
    assert_eq!(format_seconds(59, true), "59s");
}

#[test]
fn minutes_and_hours() {
    assert_eq!(format_seconds(60, false), "1 minute");
    assert_eq!(format_seconds(120, false), "2 minutes");
    assert_eq!(format_seconds(3600, false), "1 hour");
    assert_eq!(format_seconds(3661, false), "1 hour 1 minute");
    assert_eq!(format_seconds(7325, true), "2h 2m");
}

#[test]
fn days_hide_hours_and_weeks_show_days() {
    assert_eq!(format_seconds(90000, false), "1 day");
    assert_eq!(format_seconds(2 * 86400 + 3600, true), "2d");
    assert_eq!(format_seconds(691200, false), "1 week 8 days");
    assert_eq!(format_seconds(691200, true), "1w 8d");
}

#[test]
fn pluralize_ago_texts() {
    assert_eq!(lobby::pluralize_ago(1, "second", "ago"), "1 second ago");
    assert_eq!(lobby::pluralize_ago(0, "minute", "ago"), "0 minutes ago");
    assert_eq!(lobby::pluralize_ago(2, "hour", ""), "2 hours ");
}

#[test]
fn ago_format_ranges() {
    assert_eq!(lobby::format_seconds(5), ("5 seconds ago".to_string(), 1));
    assert_eq!(lobby::format_seconds(60), ("1 minute ago".to_string(), 60));
    assert_eq!(lobby::format_seconds(3599), ("59 minutes ago".to_string(), 60));
    assert_eq!(lobby::format_seconds(3600), ("1 hour 0 minutes ago".to_string(), 60));
    assert_eq!(lobby::format_seconds(7260), ("2 hours 1 minute ago".to_string(), 60));
}

#[test]
fn decimal_rendering() {
    assert_eq!(u64_to_string(0), "0");
    assert_eq!(u64_to_string(1234567890), "1234567890");
    let mut s = String::from("x=");
    push_decimal(&mut s, 42);
    assert_eq!(s, "x=42");
}

#[test]
fn chars_and_equality() {
    assert_eq!(chars_of("héllo"), vec!['h', 'é', 'l', 'l', 'o']);
    assert!(str_eq("abc", "abc"));
    assert!(!str_eq("abc", "abd"));
    assert!(!str_eq("abc", "ab"));
}
