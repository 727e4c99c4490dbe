use capture_bridge::listener::Listener;

#[test]
fn accept_error_then_success_is_served() {
    let mut listener = Listener::new();
    assert!(!listener.accept_outcome(false));
    assert_eq!(listener.served, 0);
    assert!(listener.accept_outcome(true));
    assert_eq!(listener.served, 1);
}

#[test]
fn failures_between_successes_change_nothing() {
    let mut listener = Listener::new();
    let outcomes = [true, false, false, true, true, false];
    let mut spawned: u64 = 0;
    for &ok in outcomes.iter() {
        if listener.accept_outcome(ok) {
            spawned += 1;
        }
    }
    assert_eq!(spawned, 3);
    assert_eq!(listener.served, 3);
}
