use file_explorer::input::Debounce;

#[test]
fn first_key_is_accepted() {
    let mut d = Debounce::new(200, 1000);
    assert!(d.key_arrived(1001));
    assert_eq!(d.last_key_ms, Some(1001));
}

#[test]
fn keys_inside_interval_are_dropped() {
    let mut d = Debounce::new(200, 0);
    assert!(d.key_arrived(100));
    assert!(!d.key_arrived(250));
    assert!(!d.key_arrived(100));
    assert!(d.key_arrived(300));
    assert_eq!(d.last_key_ms, Some(300));
}

#[test]
fn tick_comes_once_per_interval() {
    let mut d = Debounce::new(200, 0);
    assert_eq!(d.poll_timeout(50), 150);
    assert!(!d.tick_due(199));
    assert!(d.tick_due(200));
    assert_eq!(d.last_tick_ms, 200);
    assert_eq!(d.poll_timeout(450), 0);
    assert!(!d.tick_due(150));
}
