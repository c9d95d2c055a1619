use multiplayer_bevy::config::ClientSettings;
use multiplayer_bevy::connect::{ConnectRetry, ConnectStep};

#[test]
fn retries_double_the_wait_then_give_up() {
    let settings = ClientSettings::from_config(None, None);
    let mut retry = ConnectRetry::new(&settings);
    let mut waits = Vec::new();
    loop {
        match retry.next_step() {
            ConnectStep::Attempt { number } => {
                assert_eq!(number, retry.failures() + 1);
                waits.push(retry.record_failure());
            }
            ConnectStep::GiveUp { attempts } => {
                assert_eq!(attempts, 10);
                break;
            }
        }
    }
    assert_eq!(waits, vec![1, 2, 4, 8, 16, 32, 64, 128, 256, 512]);
    assert_eq!(retry.delay_secs(), 1024);
    assert_eq!(retry.failures(), 10);
}

#[test]
fn no_attempts_allowed_gives_up_at_once() {
    let mut settings = ClientSettings::from_config(None, None);
    settings.max_retries = 0;
    let retry = ConnectRetry::new(&settings);
    assert_eq!(retry.next_step(), ConnectStep::GiveUp { attempts: 0 });
}


#[test]
fn total_wait_is_bounded_by_the_schedule() {
    let settings = ClientSettings::from_config(None, None);
    let mut retry = ConnectRetry::new(&settings);
    let mut total: u64 = 0;
    while let ConnectStep::Attempt { number } = retry.next_step() {
        assert!(number <= settings.max_retries);
        total += retry.record_failure();
    }
    assert_eq!(total, settings.initial_delay_secs * ((1u64 << settings.max_retries) - 1));
}
