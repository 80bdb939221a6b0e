use flute_webhooks_cli::api::json::JsonValue;
use flute_webhooks_cli::api::models::{DeliveryLogSummaryDto, PingResponseDto, WebhookDeliveryLogStatus};
use flute_webhooks_cli::auth::keychain::{
    cleanup_result, env_credentials, legacy_entry_name, legacy_pair, KeyLookup,
};
use flute_webhooks_cli::cli::auth::{status_report, status_table_lines};
use flute_webhooks_cli::config::Profile;
use flute_webhooks_cli::forward::{check_target, forwardable_headers};
use flute_webhooks_cli::listen::{forwarded_line, ListenTracker};
use flute_webhooks_cli::text::{short_id, trim_string};
use flute_webhooks_cli::time::Timestamp;
use flute_webhooks_cli::tui::app::ActionOutcome;
use flute_webhooks_cli::tui::outcome::{created_outcome, ping_outcome, retry_outcome};

fn profile() -> Profile {
    Profile {
        name: "sandbox".into(),
        api_base_url: "http://127.0.0.1:9".into(),
        oauth_url: "http://127.0.0.1:9/oauth2/token".into(),
    }
}

fn credentials() -> Option<(String, String)> {
    Some(("stored-client".into(), "test-secret".into()))
}

fn body(members: Vec<(&str, JsonValue)>) -> JsonValue {
    JsonValue::Object(members.into_iter().map(|(k, v)| (k.to_string(), v)).collect())
}

#[test]
fn no_credentials_reports_false_without_network_requests() {
    let report = status_report(&profile(), None, None);
    assert!(!report.authenticated);
    assert!(report.client_id.is_none());
    assert!(report.merchant_id.is_none());
    let text = status_table_lines(&report).join("\n") + "\n";
    assert!(text.contains("Authenticated: false\nClient ID:     —\n"));
    assert!(!text.contains("Merchant ID:"));
}

#[test]
fn live_status_reports_server_identity_without_exposing_secrets() {
    let ping = body(vec![
        ("authenticated", JsonValue::Bool(true)),
        ("clientId", JsonValue::Str("server-client".into())),
        ("merchantId", JsonValue::Str("merchant-123".into())),
    ]);
    let report = status_report(&profile(), credentials(), Some(ping));
    assert!(report.authenticated);
    assert_eq!(report.client_id.as_deref(), Some("server-client"));
    assert_eq!(report.merchant_id.as_deref(), Some("merchant-123"));
    let text = status_table_lines(&report).join("\n") + "\n";
    assert!(!text.contains("test-secret"));
    assert_eq!(
        text,
        "Profile:       sandbox\nAPI base:      http://127.0.0.1:9\nAuthenticated: true\nClient ID:     server-client\nMerchant ID:   merchant-123\n"
    );
}

#[test]
fn older_ping_response_uses_stored_client_id() {
    let ping = body(vec![("status", JsonValue::Str("ok".into()))]);
    let report = status_report(&profile(), credentials(), Some(ping));
    assert!(report.authenticated);
    assert_eq!(report.client_id.as_deref(), Some("stored-client"));
    assert!(report.merchant_id.is_none());
}

#[test]
fn explicit_unauthenticated_ping_response_is_respected() {
    let ping = body(vec![("authenticated", JsonValue::Bool(false))]);
    let report = status_report(&profile(), credentials(), Some(ping));
    assert!(!report.authenticated);
    assert_eq!(report.client_id.as_deref(), Some("stored-client"));
}

#[test]
fn rejected_oauth_credentials_report_false_without_calling_ping() {
    let report = status_report(&profile(), credentials(), None);
    assert!(!report.authenticated);
    assert_eq!(report.client_id.as_deref(), Some("stored-client"));
    assert!(report.merchant_id.is_none());
}

#[test]
fn legacy_pair_outcomes() {
    let found = |s: &str| KeyLookup::Found(s.into());
    assert_eq!(
        legacy_pair(found("id"), found("secret")).unwrap(),
        Some(("id".to_string(), "secret".to_string()))
    );
    assert_eq!(legacy_pair(KeyLookup::Missing, found("secret")).unwrap(), None);
    assert_eq!(legacy_pair(KeyLookup::Failed("locked".into()), KeyLookup::Missing).unwrap(), None);
    assert_eq!(
        legacy_pair(found("id"), KeyLookup::Failed("locked".into())).unwrap_err(),
        "locked"
    );
    assert_eq!(legacy_entry_name("sandbox", "client_id"), "sandbox:client_id");
}

#[test]
fn cleanup_and_env_credentials() {
    assert!(cleanup_result(0, "sandbox").is_none());
    assert_eq!(
        cleanup_result(2, "sandbox").as_deref(),
        Some("keychain cleanup incomplete: 2 legacy entries for profile sandbox could not be deleted (see logs)")
    );
    assert_eq!(
        env_credentials(Some("a".into()), Some("b".into())),
        Some(("a".to_string(), "b".to_string()))
    );
    assert_eq!(env_credentials(Some("a".into()), None), None);
}

#[test]
fn forward_strips_transport_headers() {
    let headers = vec![
        ("Host".to_string(), Some("api".to_string())),
        ("Aurora-Webhook-Signature".to_string(), Some("sig".to_string())),
        ("CONTENT-LENGTH".to_string(), Some("10".to_string())),
        ("X-Empty".to_string(), None),
        ("Content-Type".to_string(), Some("application/json".to_string())),
        ("Transfer-Encoding".to_string(), Some("chunked".to_string())),
    ];
    assert_eq!(
        forwardable_headers(&headers),
        vec![
            ("Aurora-Webhook-Signature".to_string(), "sig".to_string()),
            ("Content-Type".to_string(), "application/json".to_string()),
        ]
    );
    assert_eq!(check_target("").unwrap_err(), "listener URL is empty");
    assert!(check_target("http://127.0.0.1:3000").is_ok());
}

fn summary(id: &str, status: WebhookDeliveryLogStatus) -> DeliveryLogSummaryDto {
    DeliveryLogSummaryDto {
        id: id.into(),
        webhook_endpoint_id: "ep".into(),
        webhook_name: None,
        endpoint_url: None,
        event_id: "e".into(),
        event_type: Some("a.b".into()),
        attempt_number: 1,
        status,
        response_status_code: None,
        duration_ms: 1,
        error_message: None,
        created_on: Timestamp { secs: 0, nanos: 0 },
    }
}

#[test]
fn listener_forwards_each_new_success_once() {
    let mut t = ListenTracker::new();
    t.mark_all(&vec![summary("old", WebhookDeliveryLogStatus::Success)]);
    let poll = vec![
        summary("old", WebhookDeliveryLogStatus::Success),
        summary("new-ok", WebhookDeliveryLogStatus::Success),
        summary("new-bad", WebhookDeliveryLogStatus::Failure),
    ];
    assert_eq!(t.poll(&poll), vec![1]);
    assert!(t.poll(&poll).is_empty());
    assert!(t.has_seen("new-bad"));
    assert_eq!(forwarded_line("0123456789", &Some("a.b".into())), "forwarded 01234567… (a.b)");
}

#[test]
fn short_ids_respect_char_boundaries() {
    assert_eq!(short_id("abc"), "abc");
    assert_eq!(short_id("0123456789"), "01234567");
    assert_eq!(short_id("aaaaaaaé"), "");
    assert_eq!(short_id("aaaaaaé"), "aaaaaaé");
    assert_eq!(trim_string("\u{3000} x \n"), "x");
}

#[test]
fn worker_outcomes() {
    match created_outcome(None) {
        ActionOutcome::Created { secret } => assert_eq!(secret, "(none returned)"),
        other => panic!("unexpected {other:?}"),
    }
    let ok = PingResponseDto { success: true, status_code: Some(204), duration_ms: 42, error_message: None };
    match ping_outcome(&ok) {
        ActionOutcome::Toast(m) => assert_eq!(m, "Ping OK: HTTP 204 in 42ms"),
        other => panic!("unexpected {other:?}"),
    }
    let bad = PingResponseDto { success: false, status_code: None, duration_ms: 7, error_message: None };
    match ping_outcome(&bad) {
        ActionOutcome::Toast(m) => assert_eq!(m, "Ping failed in 7ms: no detail"),
        other => panic!("unexpected {other:?}"),
    }
    match retry_outcome("abcdefghij") {
        ActionOutcome::Toast(m) => assert_eq!(m, "Retry queued for abcdefgh…"),
        other => panic!("unexpected {other:?}"),
    }
}
