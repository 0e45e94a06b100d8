use fleet_telemetry::aggregator::Aggregator;
use fleet_telemetry::fleet::fleet_message;
use fleet_telemetry::telemetry::{whole_minutes_between, Message, Timestamp};

fn message(vehicle: u64, secs: i64, nanos: u32) -> Message {
    fleet_message(vehicle - 1, Timestamp::new(secs, nanos).unwrap())
}

#[test]
fn whole_minutes_round_toward_zero() {
    let t = |secs, nanos| Timestamp::new(secs, nanos).unwrap();
    assert_eq!(whole_minutes_between(t(60, 0), t(0, 0)), 1);
    assert_eq!(whole_minutes_between(t(59, 999_999_999), t(0, 0)), 0);
    assert_eq!(whole_minutes_between(t(180, 0), t(0, 1)), 2);
    assert_eq!(whole_minutes_between(t(0, 0), t(60, 1)), -1);
    assert_eq!(whole_minutes_between(t(0, 0), t(59, 0)), 0);
    assert_eq!(whole_minutes_between(t(1_000, 500), t(1_000, 500)), 0);
    assert_eq!(whole_minutes_between(t(253_402_300_799, 0), t(0, 0)), 4_223_371_679);
    assert_eq!(whole_minutes_between(t(0, 0), t(253_402_300_799, 999_999_999)), -4_223_371_679);
}

#[test]
fn first_message_of_a_vehicle_updates() {
    let mut agg = Aggregator::new();
    assert_eq!(agg.last_update(7), None);
    assert!(agg.aggregate(&message(7, 1000, 0)));
    assert_eq!(agg.last_update(7), Some(Timestamp::new(1000, 0).unwrap()));
}

#[test]
fn updates_at_most_once_a_minute() {
    let mut agg = Aggregator::new();
    assert!(agg.aggregate_single_vehicle(&message(1, 1000, 0)));
    assert!(!agg.aggregate_single_vehicle(&message(1, 1030, 0)));
    assert!(!agg.aggregate_single_vehicle(&message(1, 1059, 999_999_999)));
    assert_eq!(agg.last_update(1), Some(Timestamp::new(1000, 0).unwrap()));
    assert!(agg.aggregate_single_vehicle(&message(1, 1060, 0)));
    assert_eq!(agg.last_update(1), Some(Timestamp::new(1060, 0).unwrap()));
    assert!(!agg.aggregate_single_vehicle(&message(1, 1100, 0)));
    assert!(agg.aggregate_single_vehicle(&message(1, 1200, 0)));
}

#[test]
fn older_messages_do_not_update() {
    let mut agg = Aggregator::new();
    assert!(agg.aggregate(&message(3, 5000, 0)));
    assert!(!agg.aggregate(&message(3, 1000, 0)));
    assert_eq!(agg.last_update(3), Some(Timestamp::new(5000, 0).unwrap()));
}

#[test]
fn repeated_message_updates_once() {
    let mut agg = Aggregator::new();
    let m = message(4, 42, 17);
    assert!(agg.aggregate(&m));
    assert!(!agg.aggregate(&m));
}

#[test]
fn vehicles_are_scheduled_separately() {
    let mut agg = Aggregator::new();
    assert!(agg.aggregate(&message(1, 1000, 0)));
    assert!(agg.aggregate(&message(2, 1001, 0)));
    assert!(!agg.aggregate(&message(1, 1002, 0)));
    assert_eq!(agg.last_update(2), Some(Timestamp::new(1001, 0).unwrap()));
    assert_eq!(agg.last_update(3), None);
}

#[test]
fn timestamps_are_those_chrono_holds() {
    assert!(Timestamp::new(0, 0).is_some());
    assert!(Timestamp::new(59, 1_500_000_000).is_some());
    assert!(Timestamp::new(58, 1_500_000_000).is_none());
    assert!(Timestamp::new(59, 2_000_000_000).is_none());
    assert!(Timestamp::new(i64::MAX, 0).is_none());
    assert!(Timestamp::new(-62_135_596_800, 0).is_some());
    let t = Timestamp::new(36_059, 1_200_000_000).unwrap();
    assert_eq!((t.secs(), t.nanos()), (36_059, 1_200_000_000));
}

#[test]
fn leap_seconds_count_as_chrono_counts_them() {
    let t = |secs, nanos| Timestamp::new(secs, nanos).unwrap();
    // 10:00:60.2 (a leap second) to 10:01:59.5 is 60.3 s.
    assert_eq!(whole_minutes_between(t(36_119, 500_000_000), t(36_059, 1_200_000_000)), 1);
    // 23:59:59.9 to 00:00:60.0 on the next day is 59.1 s.
    assert_eq!(whole_minutes_between(t(86_459, 1_000_000_000), t(86_399, 900_000_000)), 0);
    assert_eq!(whole_minutes_between(t(59, 1_000_000_000), t(59, 1_000_000_000)), 0);
}

#[test]
fn leap_second_updates_follow_chrono_minutes() {
    let mut agg = Aggregator::new();
    assert!(agg.aggregate(&message(5, 36_059, 1_200_000_000)));
    assert!(agg.aggregate(&message(5, 36_119, 500_000_000)));

    let mut agg = Aggregator::new();
    assert!(agg.aggregate(&message(6, 86_399, 900_000_000)));
    assert!(!agg.aggregate(&message(6, 86_459, 1_000_000_000)));
    assert_eq!(agg.last_update(6), Some(Timestamp::new(86_399, 900_000_000).unwrap()));
}
