use flute_webhooks_cli::api::error::ApiError;
use flute_webhooks_cli::config::POLL_BACKOFF_SECS;
use flute_webhooks_cli::poller::{
    backoff_seconds, current_interval, is_backoff_eligible, CadenceMode, MAX_BACKOFF_SECS,
};

#[test]
fn active_mode_uses_configured_interval() {
    assert_eq!(current_interval(CadenceMode::Active, 5), 5);
    assert_eq!(current_interval(CadenceMode::Active, 60), 60);
}

#[test]
fn backoff_mode_is_at_least_20s() {
    assert_eq!(current_interval(CadenceMode::Backoff, 5), POLL_BACKOFF_SECS);
    assert_eq!(current_interval(CadenceMode::Backoff, 10), POLL_BACKOFF_SECS);
}

#[test]
fn backoff_does_not_speed_up_a_slower_configured_interval() {
    assert_eq!(current_interval(CadenceMode::Backoff, 30), 30);
}

#[test]
fn backoff_eligible_for_listed_statuses() {
    let api = |status: u16| ApiError::Api {
        status,
        correlation_id: None,
        message: String::new(),
    };
    assert!(is_backoff_eligible(&api(401)));
    assert!(is_backoff_eligible(&api(403)));
    assert!(is_backoff_eligible(&api(404)));
    assert!(is_backoff_eligible(&api(500)));
    assert!(is_backoff_eligible(&api(502)));
    assert!(is_backoff_eligible(&api(503)));
    assert!(!is_backoff_eligible(&api(400)));
    assert!(!is_backoff_eligible(&api(422)));
}

#[test]
fn backoff_eligible_for_auth_and_decode() {
    assert!(is_backoff_eligible(&ApiError::Auth("token fetch failed".into())));
    assert!(!is_backoff_eligible(&ApiError::Decode("bad json".into())));
}

#[test]
fn backoff_seconds_doubles_then_caps() {
    let base = 5;
    assert_eq!(backoff_seconds(base, 0), 5);
    assert_eq!(backoff_seconds(base, 1), 10);
    assert_eq!(backoff_seconds(base, 2), 20);
    assert_eq!(backoff_seconds(base, 3), 40);
    assert_eq!(backoff_seconds(base, 4), 80);
    assert_eq!(backoff_seconds(base, 5), 160);
    assert_eq!(backoff_seconds(base, 6), MAX_BACKOFF_SECS);
    assert_eq!(backoff_seconds(base, 100), MAX_BACKOFF_SECS);
}

#[test]
fn backoff_seconds_respects_larger_base_interval() {
    let base = 60;
    assert_eq!(backoff_seconds(base, 1), 120);
    assert_eq!(backoff_seconds(base, 3), MAX_BACKOFF_SECS);
}

#[test]
fn backoff_never_drops_below_the_base_interval() {
    for failures in 0..20 {
        assert!(backoff_seconds(7, failures) >= 7);
        assert!(backoff_seconds(7, failures) <= MAX_BACKOFF_SECS);
    }
}

#[test]
fn backoff_keeps_a_base_interval_longer_than_the_cap() {
    assert_eq!(backoff_seconds(400, 0), 400);
    assert_eq!(backoff_seconds(400, 1), 400);
    assert_eq!(backoff_seconds(400, 6), 400);
    assert_eq!(backoff_seconds(300, 1), 300);
}
