use fleet_telemetry::recent::{recent_messages_trim, vehicle_messages_key, MAX_RECENT_MESSAGES};

#[test]
fn keys_name_the_vehicle() {
    assert_eq!(vehicle_messages_key(0), "messages:0");
    assert_eq!(vehicle_messages_key(42), "messages:42");
    assert_eq!(vehicle_messages_key(u64::MAX), "messages:18446744073709551615");
    assert_ne!(vehicle_messages_key(1), vehicle_messages_key(10));
}

#[test]
fn list_is_cut_back_past_ten() {
    assert_eq!(MAX_RECENT_MESSAGES, 10);
    assert_eq!(recent_messages_trim(0), None);
    assert_eq!(recent_messages_trim(10), None);
    assert_eq!(recent_messages_trim(11), Some((-10, -1)));
    assert_eq!(recent_messages_trim(usize::MAX), Some((-10, -1)));
}
