use wx_utils::{format_duration_ms, format_duration_seconds, spell_duration};

#[test]
fn joins_nonzero_segments() {
    assert_eq!(format_duration_seconds(3665), "1 hour, 1 minute, 5 seconds");
}

#[test]
fn omits_zero_segments() {
    assert_eq!(format_duration_seconds(3600), "1 hour");
    assert_eq!(format_duration_seconds(60), "1 minute");
}

#[test]
fn zero_shows_zero_seconds() {
    assert_eq!(format_duration_seconds(0), "0 seconds");
}

#[test]
fn pluralizes_each_segment_independently() {
    assert_eq!(format_duration_seconds(2 * 3600 + 5 * 60 + 1), "2 hours, 5 minutes, 1 second");
}

#[test]
fn milliseconds_floor_to_the_nearest_second() {
    assert_eq!(format_duration_ms(2 * 60 * 60 * 1000 + 999), "2 hours");
}

#[test]
fn hours_past_a_day_are_not_folded_into_days() {
    assert_eq!(format_duration_seconds(90061), "25 hours, 1 minute, 1 second");
}

#[test]
fn the_largest_duration_is_spoken_in_hours() {
    assert_eq!(
        format_duration_seconds(u64::MAX),
        "5124095576030431 hours, 15 seconds"
    );
}

#[test]
fn spelling_fills_only_the_first_placeholder() {
    assert_eq!(spell_duration(7322, "%d h %d", "%d min", "%ds"), "2 h %d, 2 min, 2s");
}

#[test]
fn spelling_keeps_a_template_without_placeholder() {
    assert_eq!(spell_duration(59, "H", "M", "seconds"), "seconds");
}

#[test]
fn spelling_zero_uses_only_the_seconds_template() {
    assert_eq!(spell_duration(0, "%d h", "%d m", "%d s"), "0 s");
}

#[test]
fn milliseconds_under_a_second_are_zero_seconds() {
    assert_eq!(format_duration_ms(999), "0 seconds");
}

use wx_utils::duration::{DurationUnit, segment_message, unit_is_spoken};

#[test]
fn each_unit_asks_for_its_own_count() {
    let total = 2 * 3600 + 5 * 60 + 1;
    let hours = segment_message(total, DurationUnit::Hours);
    assert_eq!((hours.singular, hours.plural, hours.count), ("%d hour", "%d hours", 2));
    let minutes = segment_message(total, DurationUnit::Minutes);
    assert_eq!((minutes.singular, minutes.plural, minutes.count), ("%d minute", "%d minutes", 5));
    let seconds = segment_message(total, DurationUnit::Seconds);
    assert_eq!((seconds.singular, seconds.plural, seconds.count), ("%d second", "%d seconds", 1));
}

#[test]
fn only_nonzero_units_are_spoken_except_zero_seconds() {
    assert!(unit_is_spoken(3600, DurationUnit::Hours));
    assert!(!unit_is_spoken(3600, DurationUnit::Minutes));
    assert!(!unit_is_spoken(3600, DurationUnit::Seconds));
    assert!(unit_is_spoken(0, DurationUnit::Seconds));
    assert!(!unit_is_spoken(0, DurationUnit::Hours));
}

#[test]
fn milliseconds_within_one_second_read_the_same() {
    assert_eq!(format_duration_ms(61_000), format_duration_ms(61_999));
    assert_eq!(format_duration_ms(61_999), format_duration_seconds(61));
}
