use flute_webhooks_cli::config::Config;
use flute_webhooks_cli::update_check::{
    announce, fresh_cache, is_newer_than, is_newer_than_current, notice_for, opt_out,
    update_check_applies, Cache, CACHE_TTL_SECS, CURRENT_VERSION,
};

#[test]
fn opt_out_respects_config_flag() {
    let cfg = Config {
        auto_update_check: false,
        ..Config::default()
    };
    assert!(opt_out(&cfg, false, false));
}

#[test]
fn opt_out_respects_environment_flags() {
    let cfg = Config::default();
    assert!(!opt_out(&cfg, false, false));
    assert!(opt_out(&cfg, true, false));
    assert!(opt_out(&cfg, false, true));
}

#[test]
fn current_version_is_not_considered_newer() {
    assert!(!is_newer_than_current(CURRENT_VERSION));
}

#[test]
fn strictly_newer_semver_counts_as_newer() {
    assert!(is_newer_than_current("999.999.999"));
}

#[test]
fn strictly_older_semver_is_not_newer() {
    assert!(!is_newer_than_current("0.0.0"));
    assert!(!is_newer_than("0.5.3", "0.5.4"));
}

#[test]
fn unparseable_candidate_returns_false() {
    assert!(!is_newer_than_current("not-a-version"));
    assert!(!is_newer_than_current(""));
}

#[test]
fn notice_contains_version_and_update_command() {
    let n = notice_for("9.9.9");
    assert!(n.contains("9.9.9"), "notice should embed the version: {n}");
    assert!(
        n.contains("flute-webhooks-cli update"),
        "notice should tell the user how to update: {n}"
    );
}

#[test]
fn cache_round_trip_returns_value_when_fresh() {
    let now = 1_700_000_000;
    let written = Cache {
        checked_at_unix_secs: now,
        latest_version: Some("9.9.9".into()),
    };
    let read = fresh_cache(Some(written), now + 60).expect("cache should still be fresh");
    assert_eq!(read.latest_version.as_deref(), Some("9.9.9"));
}

#[test]
fn cache_older_than_ttl_is_treated_as_missing() {
    let then = 1_700_000_000;
    let c = Cache {
        checked_at_unix_secs: then,
        latest_version: Some("9.9.9".into()),
    };
    let now = then + CACHE_TTL_SECS + 1;
    assert!(fresh_cache(Some(c), now).is_none(), "cache older than TTL must force a re-check");
}

#[test]
fn cache_with_no_update_still_persists_to_suppress_followups() {
    let now = 1_700_000_000;
    let c = Cache {
        checked_at_unix_secs: now,
        latest_version: None,
    };
    let read = fresh_cache(Some(c), now + 60).expect("fresh");
    assert!(read.latest_version.is_none());
}

#[test]
fn announce_only_newer_releases() {
    assert_eq!(announce(Some("1.0.0".into()), "0.9.0").as_deref(), Some("1.0.0"));
    assert!(announce(Some("0.9.0".into()), "0.9.0").is_none());
    assert!(announce(None, "0.9.0").is_none());
}

#[test]
fn update_check_gating() {
    assert!(update_check_applies(false, true, false));
    assert!(!update_check_applies(true, true, false));
    assert!(!update_check_applies(false, false, false));
    assert!(!update_check_applies(false, true, true));
}
