use fleet_telemetry::dashboard::App;

#[test]
fn new_dashboard() {
    let app = App::new();
    assert_eq!(app.counter, 0);
    assert!(!app.should_quit);
    assert_eq!(app.last_message, "");
}

#[test]
fn counter_stops_at_its_bounds() {
    let mut app = App::new();
    app.decrement_counter();
    assert_eq!(app.counter, 0);
    app.increment_counter();
    app.increment_counter();
    assert_eq!(app.counter, 2);
    app.decrement_counter();
    assert_eq!(app.counter, 1);
    app.counter = 254;
    app.increment_counter();
    assert_eq!(app.counter, 255);
    app.increment_counter();
    assert_eq!(app.counter, 255);
    app.decrement_counter();
    assert_eq!(app.counter, 254);
}

#[test]
fn received_messages_replace_the_last() {
    let mut app = App::new();
    app.tick(Some(String::from("first")));
    assert_eq!(app.last_message, "first");
    app.tick(None);
    assert_eq!(app.last_message, "first");
    app.read_from_receiver(Some(String::from("second")));
    assert_eq!(app.last_message, "second");
    app.read_from_receiver(None);
    assert_eq!(app.last_message, "second");
    assert_eq!(app.counter, 0);
}

#[test]
fn quit_stops_the_dashboard() {
    let mut app = App::new();
    app.increment_counter();
    app.quit();
    assert!(app.should_quit);
    assert_eq!(app.counter, 1);
}
