use fleet_telemetry::fleet::{create_fleet, fleet_message, initial_gps, sensor_id, FleetIterator};
use fleet_telemetry::telemetry::{Message, Timestamp};

#[test]
fn test_create_fleet() {
    let fleet_count = 2;
    let messages = create_fleet(fleet_count);
    assert_eq!(messages.len(), 2);
    assert!(
        messages[0].sensor.id.starts_with("00000000"),
        "{}",
        messages[0].sensor.id
    );
    assert!(
        messages[1].sensor.id.starts_with("00000001"),
        "{}",
        messages[1].sensor.id
    );
    assert_eq!(messages[0].payload.id, 1);
    assert_eq!(messages[1].payload.id, 2);
}

#[test]
fn test_fleet_iterator() {
    let messages = create_fleet(2);
    let mut iterator = FleetIterator::new(messages);
    assert_eq!(iterator.current_index(), -1);
    assert_eq!(iterator.count(), 2);

    // Assert iterator loops through messages
    let message: Message = iterator.next().unwrap();
    assert_eq!(message.payload.id, 1);
    let message: Message = iterator.next().unwrap();
    assert_eq!(message.payload.id, 2);
    let message: Message = iterator.next().unwrap();
    assert_eq!(message.payload.id, 1);
    let message: Message = iterator.next().unwrap();
    assert_eq!(message.payload.id, 2);
    let message: Message = iterator.next().unwrap();
    assert_eq!(message.payload.id, 1);
}

#[test]
fn sensor_ids_are_zero_padded_to_eight_digits() {
    assert_eq!(sensor_id(0), "00000000-b54f-4ac9-9cda-68fe41410ce2");
    assert_eq!(sensor_id(7), "00000007-b54f-4ac9-9cda-68fe41410ce2");
    assert_eq!(sensor_id(12345678), "12345678-b54f-4ac9-9cda-68fe41410ce2");
    assert_eq!(sensor_id(123456789), "123456789-b54f-4ac9-9cda-68fe41410ce2");
    assert_eq!(
        sensor_id(u64::MAX),
        "18446744073709551615-b54f-4ac9-9cda-68fe41410ce2"
    );
}

#[test]
fn fleet_sensor_ids_are_distinct() {
    let messages = create_fleet(25);
    for i in 0..messages.len() {
        for j in 0..messages.len() {
            if i != j {
                assert_ne!(messages[i].sensor.id, messages[j].sensor.id);
            }
        }
    }
}

#[test]
fn fleet_starts_at_the_initial_position() {
    let gps = initial_gps();
    assert_eq!(f64::from_bits(gps.latitude_bits), 52.00882034091296);
    assert_eq!(f64::from_bits(gps.longitude_bits), 17.0333332);
    assert_eq!(f64::from_bits(gps.altitude_bits), 0.1);
    assert_eq!(f64::from_bits(gps.speed_bits), 27.7777);
    let messages = create_fleet(3);
    for (i, m) in messages.iter().enumerate() {
        assert_eq!(m.payload.gps, gps);
        assert_eq!(m.payload.id, i as u64 + 1);
    }
}

#[test]
fn fleet_messages_are_stamped_with_the_clock() {
    let before = std::time::SystemTime::now()
        .duration_since(std::time::UNIX_EPOCH)
        .unwrap()
        .as_secs() as i64;
    let messages = create_fleet(2);
    let after = std::time::SystemTime::now()
        .duration_since(std::time::UNIX_EPOCH)
        .unwrap()
        .as_secs() as i64;
    for m in &messages {
        assert!(before <= m.timestamp.secs() && m.timestamp.secs() <= after);
        assert!(m.timestamp.nanos() < 1_000_000_000);
    }
}

#[test]
fn empty_fleet() {
    let messages = create_fleet(0);
    assert!(messages.is_empty());
    let iterator = FleetIterator::new(messages);
    assert_eq!(iterator.count(), 0);
    assert_eq!(iterator.current_index(), -1);
}

#[test]
fn fleet_message_keeps_its_timestamp() {
    let t = Timestamp::new(1_700_000_000, 5).unwrap();
    let m = fleet_message(41, t);
    assert_eq!(m.timestamp, t);
    assert_eq!(m.payload.id, 42);
    assert_eq!(m.sensor.id, "00000041-b54f-4ac9-9cda-68fe41410ce2");
}

#[test]
fn iterator_cycles_with_period_of_its_length() {
    let t = Timestamp::new(0, 0).unwrap();
    let messages = vec![fleet_message(0, t), fleet_message(1, t), fleet_message(2, t)];
    let mut iterator = FleetIterator::new(messages);
    let mut seen = Vec::new();
    for _ in 0..10 {
        seen.push(iterator.next().unwrap().payload.id);
    }
    assert_eq!(seen, vec![1, 2, 3, 1, 2, 3, 1, 2, 3, 1]);
    assert_eq!(iterator.current_index(), 0);
}

#[test]
fn single_message_iterator_repeats_it() {
    let t = Timestamp::new(3, 4).unwrap();
    let mut iterator = FleetIterator::new(vec![fleet_message(9, t)]);
    for _ in 0..4 {
        let m = iterator.next().unwrap();
        assert_eq!(m.payload.id, 10);
        assert_eq!(m.timestamp, t);
        assert_eq!(iterator.current_index(), 0);
    }
}
