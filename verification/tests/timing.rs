use multiplayer_bevy::timing::{CheckThrottle, ErrorReconnect};

const SECOND: u128 = 1_000_000_000;

#[test]
fn first_check_after_one_second() {
    let mut t = CheckThrottle::new();
    assert!(!t.begin_check(SECOND / 2));
    assert_eq!(t.last_check_nanos(), 0);
    assert!(t.begin_check(SECOND));
    assert_eq!(t.last_check_nanos(), SECOND);
}

#[test]
fn checks_are_spaced_by_a_second() {
    let mut t = CheckThrottle::new();
    assert!(t.begin_check(3 * SECOND));
    assert!(!t.begin_check(3 * SECOND + SECOND - 1));
    assert!(t.begin_check(4 * SECOND));
    assert!(!t.begin_check(2 * SECOND));
}

#[test]
fn reconnect_only_when_due_and_disconnected() {
    let mut t = CheckThrottle::new();
    assert!(!t.should_reconnect(SECOND / 2, false));
    assert!(!t.should_reconnect(2 * SECOND, true));
    assert_eq!(t.last_check_nanos(), 2 * SECOND);
    assert!(!t.should_reconnect(2 * SECOND + 10, false));
    assert!(t.should_reconnect(3 * SECOND, false));
}

#[test]
fn errors_wait_for_the_next_due_check() {
    let mut r = ErrorReconnect::new();
    assert_eq!(r.on_update(SECOND / 2, 2), 0);
    assert_eq!(r.pending_errors(), 2);
    assert_eq!(r.on_update(SECOND / 2 + 10, 1), 0);
    assert_eq!(r.pending_errors(), 3);
    assert_eq!(r.on_update(SECOND, 0), 3);
    assert_eq!(r.pending_errors(), 0);
    assert_eq!(r.on_update(SECOND + 1, 0), 0);
    assert_eq!(r.on_update(2 * SECOND, 1), 1);
}
