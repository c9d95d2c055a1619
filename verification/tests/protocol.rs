use multiplayer_bevy::protocol::{DEFAULT_SERVER_PORT, MAX_CLIENTS, PROTOCOL_ID};

#[test]
fn protocol_constants() {
    assert_eq!(PROTOCOL_ID, 7);
    assert_eq!(MAX_CLIENTS, 64);
    assert_eq!(DEFAULT_SERVER_PORT, 5000);
}
