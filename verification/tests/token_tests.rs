use flute_webhooks_cli::auth::token::{
    format_oauth_error, truncate_for_log, OAuthErrorResp, TokenCache, OAUTH_ERROR_BODY_TRUNCATE,
};

#[test]
fn truncate_for_log_respects_utf8_char_boundaries() {
    let mut s = "a".repeat(OAUTH_ERROR_BODY_TRUNCATE - 1);
    s.push('é');
    s.push_str(&"b".repeat(10));
    let out = truncate_for_log(&s);
    assert!(
        out.ends_with('…'),
        "truncated output should end with ellipsis: {out}"
    );
    assert!(out.len() <= OAUTH_ERROR_BODY_TRUNCATE + 4);
}

#[test]
fn truncate_for_log_keeps_short_bodies_trimmed() {
    assert_eq!(truncate_for_log("  <html>bad gateway</html>\n"), "<html>bad gateway</html>");
    assert_eq!(truncate_for_log(" \t\n"), "");
}

#[test]
fn truncate_for_log_cuts_before_a_split_character() {
    let mut s = "a".repeat(OAUTH_ERROR_BODY_TRUNCATE - 1);
    s.push('é');
    let out = truncate_for_log(&s);
    assert_eq!(out, format!("{}…", "a".repeat(OAUTH_ERROR_BODY_TRUNCATE - 1)));
}

#[test]
fn caches_token_within_validity() {
    let mut cache = TokenCache::new();
    assert!(cache.fresh_bearer(0).is_none());
    cache.store("token-0".to_string(), 0, 3600);
    assert_eq!(cache.fresh_bearer(0).as_deref(), Some("token-0"));
    assert_eq!(cache.fresh_bearer(1_000).as_deref(), Some("token-0"));
}

#[test]
fn invalidate_forces_a_refetch_on_next_bearer_call() {
    let mut cache = TokenCache::new();
    cache.store("token-0".to_string(), 0, 3600);
    assert_eq!(cache.fresh_bearer(0).as_deref(), Some("token-0"));
    cache.invalidate();
    assert!(cache.fresh_bearer(0).is_none());
    cache.store("token-1".to_string(), 0, 3600);
    assert_eq!(cache.fresh_bearer(0).as_deref(), Some("token-1"));
}

#[test]
fn refreshes_when_within_60s_of_expiry() {
    let mut cache = TokenCache::new();
    cache.store("token-0".to_string(), 0, 30);
    assert!(cache.fresh_bearer(0).is_none());
    let mut cache = TokenCache::new();
    cache.store("token-0".to_string(), 0, 3600);
    assert!(cache.fresh_bearer(3_540_000).is_none());
    assert!(cache.fresh_bearer(3_539_999).is_some());
}

#[test]
fn oauth_error_surfaces_rfc6749_fields() {
    let parsed = OAuthErrorResp {
        error: "invalid_client".into(),
        error_description: Some("Client authentication failed".into()),
        error_uri: Some("https://tools.ietf.org/html/rfc6749#section-5.2".into()),
    };
    let msg = format_oauth_error(401, "{}", Some(parsed));
    assert_eq!(
        msg,
        "HTTP 401 invalid_client — Client authentication failed (see https://tools.ietf.org/html/rfc6749#section-5.2)"
    );
}

#[test]
fn oauth_error_skips_blank_optional_fields() {
    let parsed = OAuthErrorResp {
        error: "invalid_client".into(),
        error_description: Some("   ".into()),
        error_uri: None,
    };
    assert_eq!(format_oauth_error(401, "{}", Some(parsed)), "HTTP 401 invalid_client");
}

#[test]
fn oauth_error_falls_back_to_body_snippet() {
    let msg = format_oauth_error(502, "<html>bad gateway</html>", None);
    assert_eq!(msg, "HTTP 502: <html>bad gateway</html>");
    assert_eq!(format_oauth_error(500, "  ", None), "HTTP 500");
}
