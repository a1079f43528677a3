use lrcall::time::AbsoluteTime;
use lrcall::time::Clock;
use lrcall::time::RelativeTime;
use std::time::Duration;
use std::time::Instant;

#[test]
fn relative_time_from_parts_accepts_a_subsecond_part_below_one_second() {
    let t = RelativeTime::from_parts(3, 999_999_999).unwrap();
    assert_eq!(t.as_secs(), 3);
    assert_eq!(t.subsec_nanos(), 999_999_999);
    assert_eq!(t.as_nanos(), 3_999_999_999);
}

#[test]
fn relative_time_from_parts_refuses_a_full_second_of_nanos() {
    assert_eq!(RelativeTime::from_parts(3, 1_000_000_000), None);
    assert_eq!(RelativeTime::from_parts(0, u32::MAX), None);
}

#[test]
fn relative_time_from_millis_splits_seconds_and_nanos() {
    let t = RelativeTime::from_millis(1_250);
    assert_eq!(t.as_secs(), 1);
    assert_eq!(t.subsec_nanos(), 250_000_000);
    assert_eq!(t.as_nanos(), 1_250_000_000);
    assert_eq!(RelativeTime::from_millis(u64::MAX).as_nanos(), u64::MAX as u128 * 1_000_000);
}

#[test]
fn relative_time_from_nanos_covers_the_whole_range_and_no_more() {
    let max = u64::MAX as u128 * 1_000_000_000 + 999_999_999;
    assert_eq!(RelativeTime::from_nanos(0), Some(RelativeTime::zero()));
    assert_eq!(RelativeTime::from_nanos(max), Some(RelativeTime::longest()));
    assert_eq!(RelativeTime::from_nanos(max + 1), None);
    assert_eq!(RelativeTime::from_nanos(u128::MAX), None);
    assert_eq!(RelativeTime::from_nanos(1_500_000_000), RelativeTime::from_parts(1, 500_000_000));
}

#[test]
fn relative_time_checked_add_carries_into_seconds() {
    let a = RelativeTime::from_parts(1, 600_000_000).unwrap();
    let b = RelativeTime::from_parts(2, 700_000_000).unwrap();
    assert_eq!(a.checked_add(b), RelativeTime::from_parts(4, 300_000_000));
}

#[test]
fn relative_time_checked_add_reports_overflow() {
    let one_nano = RelativeTime::from_parts(0, 1).unwrap();
    assert_eq!(RelativeTime::longest().checked_add(one_nano), None);
    assert_eq!(RelativeTime::longest().checked_add(RelativeTime::zero()), Some(RelativeTime::longest()));
}

#[test]
fn relative_time_saturating_sub_borrows_and_stops_at_zero() {
    let a = RelativeTime::from_parts(5, 100_000_000).unwrap();
    let b = RelativeTime::from_parts(2, 200_000_000).unwrap();
    assert_eq!(a.saturating_sub(b), RelativeTime::from_parts(2, 900_000_000).unwrap());
    assert_eq!(b.saturating_sub(a), RelativeTime::zero());
    assert_eq!(a.saturating_sub(a), RelativeTime::zero());
}

#[test]
fn absolute_time_keeps_its_distance_from_the_origin() {
    let elapsed = RelativeTime::from_millis(1_500);
    let t = AbsoluteTime::from_origin(elapsed);
    assert_eq!(t.since_origin(), elapsed);
}

#[test]
fn absolute_time_checked_add_and_saturating_add_agree_within_range() {
    let t = AbsoluteTime::from_origin(RelativeTime::from_secs(7));
    let later = AbsoluteTime::from_origin(RelativeTime::from_parts(9, 500_000_000).unwrap());
    let span = RelativeTime::from_millis(2_500);
    assert_eq!(t.checked_add(span), Some(later));
    assert_eq!(t.saturating_add(span), later);
}

#[test]
fn absolute_time_add_at_the_end_of_the_range() {
    let last = AbsoluteTime::from_origin(RelativeTime::longest());
    let span = RelativeTime::from_secs(1);
    assert_eq!(last.checked_add(span), None);
    assert_eq!(last.saturating_add(span), last);
}

#[test]
fn absolute_time_saturating_since_is_zero_for_a_later_reading() {
    let early = AbsoluteTime::from_origin(RelativeTime::from_secs(3));
    let late = AbsoluteTime::from_origin(RelativeTime::from_secs(10));
    assert_eq!(late.saturating_since(early), RelativeTime::from_secs(7));
    assert_eq!(early.saturating_since(late), RelativeTime::zero());
}

#[test]
fn a_deadline_has_passed_from_the_moment_it_is_reached() {
    let deadline = AbsoluteTime::from_origin(RelativeTime::from_millis(50));
    let before = AbsoluteTime::from_origin(RelativeTime::from_parts(0, 49_999_999).unwrap());
    let at = AbsoluteTime::from_origin(RelativeTime::from_millis(50));
    let after = AbsoluteTime::from_origin(RelativeTime::from_millis(51));
    assert!(!deadline.has_passed(before));
    assert!(deadline.has_passed(at));
    assert!(deadline.has_passed(after));
}

#[test]
fn clock_readings_do_not_go_back() {
    let clock = Clock::start();
    let first = clock.now();
    let second = clock.now();
    assert!(second.since_origin().as_nanos() >= first.since_origin().as_nanos());
    assert!(first.since_origin().as_secs() < 60);
}

#[test]
fn clock_reads_a_moment_by_its_distance_from_the_start() {
    let start = Instant::now();
    let clock = Clock::start();
    let moment = Instant::now() + Duration::new(3, 250);
    let reading = clock.reading_of(&moment);
    assert!(reading.since_origin().as_nanos() >= 3_000_000_250);
    assert!(reading.since_origin().as_nanos() < 4_000_000_000);
    assert_eq!(clock.reading_of(&start).since_origin(), RelativeTime::zero());
}

#[test]
fn clock_turns_a_reading_back_into_its_moment() {
    let clock = Clock::start();
    let reading = AbsoluteTime::from_origin(RelativeTime::from_parts(2, 5).unwrap());
    let moment = clock.moment_of(reading).unwrap();
    assert_eq!(clock.reading_of(&moment), reading);
    let origin = clock.moment_of(AbsoluteTime::from_origin(RelativeTime::zero())).unwrap();
    assert_eq!(moment.duration_since(origin), Duration::new(2, 5));
}
