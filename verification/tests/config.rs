use multiplayer_bevy::config::{
    client_id_from, configured_client_id, is_true_word, multiplayer_enabled, parse_u64, time_based_client_id, ClientSettings,
};
use multiplayer_bevy::protocol::DEFAULT_SERVER_PORT;

#[test]
fn default_settings() {
    let s = ClientSettings::from_config(None, None);
    assert_eq!(s.max_retries, 10);
    assert_eq!(s.initial_delay_secs, 1);
    assert_eq!(s.server_ip, "127.0.0.1");
    assert_eq!(s.server_port, "5000");
    assert_eq!(s.server_address(), "127.0.0.1:5000");
}

#[test]
fn configured_settings() {
    let s = ClientSettings::from_config(Some("10.0.0.2".to_string()), Some("7777".to_string()));
    assert_eq!(s.server_address(), "10.0.0.2:7777");
    let s = ClientSettings::from_config(None, Some("6000".to_string()));
    assert_eq!(s.server_address(), "127.0.0.1:6000");
}

#[test]
fn parse_accepts_decimal_numbers() {
    assert_eq!(parse_u64("0"), Some(0));
    assert_eq!(parse_u64("42"), Some(42));
    assert_eq!(parse_u64("+42"), Some(42));
    assert_eq!(parse_u64("007"), Some(7));
    assert_eq!(parse_u64("18446744073709551615"), Some(u64::MAX));
}

#[test]
fn parse_agrees_with_std() {
    for s in ["", "+", "-", "-5", "12a", " 1", "1 ", "++1", "18446744073709551616", "99999999999999999999x", "\u{663}", "+0", "123"] {
        assert_eq!(parse_u64(s), s.parse::<u64>().ok(), "input {:?}", s);
    }
}

#[test]
fn client_id_prefers_configured_number() {
    assert_eq!(client_id_from(Some("1234".to_string()), 99), 1234);
    assert_eq!(client_id_from(Some("abc".to_string()), 99), 99);
    assert_eq!(client_id_from(None, 1_700_000_000_000), 1_700_000_000_000);
    assert_eq!(client_id_from(None, (1u128 << 64) + 5), 5);
}

#[test]
fn multiplayer_setting_ignores_case() {
    assert!(multiplayer_enabled(Some("true".to_string())));
    assert!(multiplayer_enabled(Some("TRUE".to_string())));
    assert!(multiplayer_enabled(Some("True".to_string())));
    assert!(!multiplayer_enabled(Some("yes".to_string())));
    assert!(!multiplayer_enabled(Some(" true".to_string())));
    assert!(!multiplayer_enabled(None));
}

#[test]
fn true_word_is_exact() {
    assert!(is_true_word(&"true".to_string()));
    assert!(!is_true_word(&"TRUE".to_string()));
    assert!(!is_true_word(&"truee".to_string()));
}

#[test]
fn client_id_parts() {
    assert_eq!(configured_client_id(Some("+77".to_string())), Some(77));
    assert_eq!(configured_client_id(Some("x".to_string())), None);
    assert_eq!(configured_client_id(None), None);
    assert_eq!(time_based_client_id(12345), 12345);
    assert_eq!(time_based_client_id(u128::MAX), u64::MAX);
}

#[test]
fn default_port_is_the_server_port() {
    let s = ClientSettings::from_config(None, None);
    assert_eq!(parse_u64(&s.server_port), Some(DEFAULT_SERVER_PORT as u64));
}
