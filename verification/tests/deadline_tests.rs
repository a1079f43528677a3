use lrcall::absolute_to_relative_time::decode;
use lrcall::absolute_to_relative_time::deserialize;
use lrcall::absolute_to_relative_time::encode;
use lrcall::absolute_to_relative_time::serialize;
use lrcall::time::AbsoluteTime;
use lrcall::time::Clock;
use lrcall::time::RelativeTime;
use std::time::Duration;

fn at_millis(millis: u64) -> AbsoluteTime {
    AbsoluteTime::from_origin(RelativeTime::from_millis(millis))
}

fn as_duration(span: RelativeTime) -> Duration {
    Duration::new(span.as_secs(), span.subsec_nanos())
}

fn as_relative(span: Duration) -> RelativeTime {
    RelativeTime::from_parts(span.as_secs(), span.subsec_nanos()).unwrap()
}

#[test]
fn test_serialize() {
    let clock = Clock::start();
    let now = clock.now();
    let deadline = now.checked_add(as_relative(Duration::from_secs(10))).unwrap();
    let serialized_deadline = bincode::serialize(&as_duration(serialize(&deadline, &clock))).unwrap();
    let deserialized_deadline: Duration = bincode::deserialize(&serialized_deadline).unwrap();
    assert!(deserialized_deadline > Duration::from_secs(9));
}

#[test]
fn test_deserialize() {
    let clock = Clock::start();
    let deadline = Duration::from_secs(10);
    let serialized_deadline = bincode::serialize(&deadline).unwrap();
    let on_the_wire: Duration = bincode::deserialize(&serialized_deadline).unwrap();
    let deserialized_deadline = deserialize(as_relative(on_the_wire), &clock).unwrap();
    let bound = clock.now().checked_add(as_relative(Duration::from_secs(9))).unwrap();
    assert!(deserialized_deadline.since_origin().as_nanos() > bound.since_origin().as_nanos());
}

#[test]
fn encode_is_the_time_left() {
    assert_eq!(encode(at_millis(10_000), at_millis(2_500)), RelativeTime::from_millis(7_500));
    assert_eq!(encode(at_millis(10_000), at_millis(0)), RelativeTime::from_millis(10_000));
}

#[test]
fn encode_of_a_deadline_that_has_passed_is_zero() {
    assert_eq!(encode(at_millis(2_500), at_millis(10_000)), RelativeTime::zero());
    assert_eq!(encode(at_millis(2_500), at_millis(2_500)), RelativeTime::zero());
}

#[test]
fn decode_adds_the_time_left_to_the_local_reading() {
    assert_eq!(decode(RelativeTime::from_millis(7_500), at_millis(1_000)), Some(at_millis(8_500)));
}

#[test]
fn decode_of_no_time_left_is_the_moment_of_decoding() {
    assert_eq!(decode(RelativeTime::zero(), at_millis(1_000)), Some(at_millis(1_000)));
}

#[test]
fn decode_beyond_the_last_reading_is_none() {
    let last = AbsoluteTime::from_origin(RelativeTime::longest());
    assert_eq!(decode(RelativeTime::from_parts(0, 1).unwrap(), last), None);
    assert_eq!(decode(RelativeTime::zero(), last), Some(last));
}

#[test]
fn round_trip_moves_the_deadline_by_the_time_in_transit() {
    let deadline = at_millis(10_000);
    let now = at_millis(4_000);
    let in_transit = RelativeTime::from_millis(300);
    let arrival = now.checked_add(in_transit).unwrap();
    let decoded = decode(encode(deadline, now), arrival).unwrap();
    assert_eq!(decoded, at_millis(10_300));
    assert_eq!(decoded.saturating_since(deadline), in_transit);
}

#[test]
fn round_trip_does_not_depend_on_the_receivers_clock() {
    let deadline = at_millis(10_000);
    let now = at_millis(4_000);
    let wire = encode(deadline, now);
    for receiver_now in [0u64, 17, 4_000, 1_000_000_000] {
        let decoded = decode(wire, at_millis(receiver_now)).unwrap();
        assert_eq!(encode(decoded, at_millis(receiver_now)), RelativeTime::from_millis(6_000));
    }
}

#[test]
fn a_passed_deadline_decodes_to_the_moment_of_decoding() {
    let wire = encode(at_millis(1_000), at_millis(4_000));
    assert_eq!(decode(wire, at_millis(4_300)), Some(at_millis(4_300)));
}

#[test]
fn serialize_never_exceeds_the_deadline_itself() {
    let clock = Clock::start();
    let deadline = at_millis(60_000);
    let left = serialize(&deadline, &clock);
    assert!(left.as_nanos() <= 60_000_000_000);
    assert!(left.as_nanos() > 59_000_000_000);
    assert_eq!(serialize(&at_millis(0), &clock), RelativeTime::zero());
}
