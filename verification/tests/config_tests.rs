use flute_webhooks_cli::config::{
    config_dir_at, join_name, validate_poll_interval, Config, PathBase, Profile, POLL_DEFAULT, POLL_MAX,
    POLL_MIN,
};
use flute_webhooks_cli::update_check::secs_or_zero;
use std::path::PathBuf;

#[test]
fn poll_in_range_accepted() {
    let v = validate_poll_interval(10);
    assert_eq!(v.seconds, 10);
    assert!(v.warning.is_none());
}

#[test]
fn poll_below_min_warns_and_defaults() {
    let v = validate_poll_interval(1);
    assert_eq!(v.seconds, POLL_DEFAULT);
    assert!(v.warning.unwrap().contains("outside"));
}

#[test]
fn poll_above_max_warns_and_defaults() {
    let v = validate_poll_interval(120);
    assert_eq!(v.seconds, POLL_DEFAULT);
    assert!(v.warning.is_some());
}

#[test]
fn poll_warning_text_names_the_value_and_the_range() {
    let v = validate_poll_interval(120);
    assert_eq!(
        v.warning.as_deref(),
        Some("poll_interval_seconds=120 is outside 5-60; defaulting to 5")
    );
}

#[test]
fn boundary_min_accepted() {
    assert_eq!(validate_poll_interval(POLL_MIN).seconds, POLL_MIN);
}

#[test]
fn boundary_max_accepted() {
    assert_eq!(validate_poll_interval(POLL_MAX).seconds, POLL_MAX);
}

#[test]
fn config_default_uses_sandbox_profile_and_5s() {
    let c = Config::default();
    assert_eq!(c.default_profile, "sandbox");
    assert_eq!(c.poll_interval_seconds, 5);
    assert!(c.auto_update_check);
}

#[test]
fn sandbox_profile_has_uat_hosts() {
    let p = Profile::sandbox();
    assert_eq!(p.name, "sandbox");
    assert_eq!(p.api_base_url, "https://api.uat.arise.risewithaurora.com");
    assert_eq!(
        p.oauth_url,
        "https://oauth.uat.arise.risewithaurora.com/oauth2/token"
    );
}

#[test]
fn production_profile_has_prod_hosts() {
    let p = Profile::production();
    assert_eq!(p.api_base_url, "https://api.arise.risewithaurora.com");
    assert_eq!(
        p.oauth_url,
        "https://oauth.arise.risewithaurora.com/oauth2/token"
    );
}

#[test]
fn api_base_urls_have_no_path_prefix() {
    for p in [Profile::sandbox(), Profile::production()] {
        let trimmed = p.api_base_url.trim_end_matches('/');
        let path_idx = trimmed.find("//").map(|i| i + 2).unwrap_or(0);
        let after_host = &trimmed[path_idx..];
        assert!(
            !after_host.contains('/'),
            "profile {} must have no path on its api_base_url: got {}",
            p.name,
            p.api_base_url
        );
    }
}

#[test]
fn by_name_resolves_known_profiles() {
    assert_eq!(Profile::by_name("sandbox").unwrap().name, "sandbox");
    assert_eq!(Profile::by_name("production").unwrap().name, "production");
    assert_eq!(Profile::by_name("prod").unwrap().name, "production");
    assert!(Profile::by_name("garbage").is_none());
    assert!(Profile::by_name("uat").is_none());
}

#[test]
fn config_path_ends_with_the_settings_file() {
    let p = flute_webhooks_cli::config::config_path();
    assert_eq!(p.segments, vec![".flute".to_string(), "config.toml".to_string()]);
}

#[test]
fn config_dir_starts_at_home_or_the_working_directory() {
    let d = config_dir_at(Some(PathBuf::from("/home/ada")));
    match &d.base {
        PathBase::Home(h) => assert_eq!(h, &PathBuf::from("/home/ada")),
        PathBase::WorkingDir => panic!("expected the home directory"),
    }
    assert_eq!(d.segments, vec![".flute".to_string()]);
    let f = join_name(d, "config.toml");
    assert_eq!(f.segments, vec![".flute".to_string(), "config.toml".to_string()]);
    let w = config_dir_at(None);
    assert!(matches!(w.base, PathBase::WorkingDir));
    assert_eq!(w.segments, vec![".flute".to_string()]);
}

#[test]
fn cache_path_is_in_the_settings_directory() {
    let p = flute_webhooks_cli::update_check::cache_path();
    assert_eq!(p.segments, vec![".flute".to_string(), "update-check.json".to_string()]);
}

#[test]
fn clock_reading_before_the_epoch_counts_as_zero() {
    assert_eq!(secs_or_zero(Some(1_700_000_000)), 1_700_000_000);
    assert_eq!(secs_or_zero(None), 0);
}
