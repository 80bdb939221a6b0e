use flute_webhooks_cli::api::error::ApiError;
use flute_webhooks_cli::api::models::{
    DeliveryLogDetailDto, GetWebhookEndpointDto, PingResponseDto, WebhookDeliveryLogStatus,
    WebhookEndpointStatus,
};
use flute_webhooks_cli::cli::output::{
    delivery_detail_lines, delivery_logs_table_lines, endpoint_detail_lines,
    endpoints_table_lines, event_types_lines, fit, ping_lines, ErrorJson,
};
use flute_webhooks_cli::domain::{DeliveryLog, EventTypeMeta};
use flute_webhooks_cli::time::Timestamp;

#[test]
fn fit_pads_short_strings_to_width() {
    assert_eq!(fit("hi", 5), "hi   ");
}

#[test]
fn fit_truncates_long_strings_with_ellipsis() {
    let out = fit("hello-world", 6);
    assert_eq!(out.chars().count(), 6);
    assert!(out.ends_with('…'));
    assert!(out.starts_with("hello"));
}

#[test]
fn fit_to_zero_width_is_empty() {
    assert_eq!(fit("abc", 0), "");
    assert_eq!(fit("abc", 3), "abc");
}

#[test]
fn error_json_api_variant_surfaces_status_and_correlation_id() {
    let e = ApiError::Api {
        status: 422,
        correlation_id: Some("abc-123".into()),
        message: "Validation failed".into(),
    };
    let env = ErrorJson::from_anyhow(Some(&e), "API 422");
    assert_eq!(env.kind, "api");
    assert_eq!(env.status, Some(422));
    assert_eq!(env.correlation_id.as_deref(), Some("abc-123"));
    assert_eq!(env.message, "Validation failed");
}

#[test]
fn error_json_auth_variant_uses_auth_kind_no_status() {
    let e = ApiError::Auth("no token".into());
    let env = ErrorJson::from_anyhow(Some(&e), "auth error: no token");
    assert_eq!(env.kind, "auth");
    assert!(env.status.is_none());
    assert!(env.correlation_id.is_none());
    assert_eq!(env.message, "no token");
}

#[test]
fn error_json_falls_back_to_client_for_unknown_errors() {
    let e = anyhow::Error::msg("unknown profile: garbage");
    let env = ErrorJson::from_anyhow(None, &e.to_string());
    assert_eq!(env.kind, "client");
    assert!(env.message.contains("garbage"));
}

#[test]
fn error_json_finds_api_error_through_context_wrapper() {
    let inner = ApiError::Api {
        status: 500,
        correlation_id: Some("xyz".into()),
        message: "boom".into(),
    };
    let env = ErrorJson::from_anyhow(Some(&inner), "while creating endpoint");
    assert_eq!(env.kind, "api");
    assert_eq!(env.status, Some(500));
    assert_eq!(env.correlation_id.as_deref(), Some("xyz"));
}

#[test]
fn error_json_transport_and_decode_kinds() {
    let t = ErrorJson::from_anyhow(Some(&ApiError::Transport("dns".into())), "x");
    assert_eq!(t.kind, "transport");
    assert_eq!(t.message, "dns");
    let d = ErrorJson::from_anyhow(Some(&ApiError::Decode("bad".into())), "x");
    assert_eq!(d.kind, "decode");
    assert_eq!(d.message, "bad");
}

fn dto(id: &str, name: Option<&str>) -> GetWebhookEndpointDto {
    GetWebhookEndpointDto {
        id: id.into(),
        name: name.map(String::from),
        endpoint_url: Some("https://example.com/hook".into()),
        status: WebhookEndpointStatus::Inactive,
        event_types: Some(vec!["a.b".into(), "c.d".into()]),
        created_on: None,
        modified_on: None,
    }
}

#[test]
fn endpoints_table_has_header_rule_and_rows() {
    let lines = endpoints_table_lines(&vec![dto("ep-1", Some("Orders")), dto("ep-2", None)]);
    assert_eq!(lines.len(), 4);
    assert!(lines[0].starts_with("ID  "));
    assert_eq!(lines[1], "-".repeat(124));
    assert!(lines[2].starts_with("ep-1"));
    assert!(lines[2].contains("Orders"));
    assert!(lines[2].trim_end().ends_with("Inactive"));
    assert_eq!(lines[2].chars().count(), 36 + 24 + 50 + 8 + 6);
}

#[test]
fn endpoint_detail_lists_events_joined() {
    let lines = endpoint_detail_lines(&dto("ep-1", Some("Orders")));
    assert_eq!(
        lines,
        vec![
            "ID:        ep-1",
            "Name:      Orders",
            "URL:       https://example.com/hook",
            "Status:    Inactive",
            "Events:    a.b, c.d",
        ]
    );
}

fn log(id: &str, status: WebhookDeliveryLogStatus, code: Option<i32>) -> DeliveryLog {
    DeliveryLog {
        id: id.into(),
        endpoint_id: "ep".into(),
        endpoint_name: "ep".into(),
        endpoint_url: "https://x".into(),
        event_id: "evt".into(),
        event_type: "transaction.card.captured".into(),
        status,
        attempt_number: 1,
        response_status_code: code,
        duration_ms: 12,
        error_message: None,
        created_on: Timestamp { secs: 1_700_000_000, nanos: 0 },
    }
}

#[test]
fn delivery_table_shows_total_and_failed_label() {
    let lines = delivery_logs_table_lines(
        &vec![log("l1", WebhookDeliveryLogStatus::Failure, None)],
        Some(7),
    );
    assert_eq!(lines.len(), 5);
    assert!(lines[2].starts_with("2023-11-14 22:13:20"));
    assert!(lines[2].contains("Failed"));
    assert!(lines[2].contains("—"));
    assert!(lines[2].contains("12ms"));
    assert_eq!(lines[3], "");
    assert_eq!(lines[4], "1 of 7 total");
    let no_total = delivery_logs_table_lines(&vec![], None);
    assert_eq!(no_total.len(), 2);
}

#[test]
fn delivery_detail_sorts_request_headers() {
    let d = DeliveryLogDetailDto {
        id: "d1".into(),
        webhook_endpoint_id: "ep-1".into(),
        webhook_name: Some("Orders".into()),
        endpoint_url: None,
        event_id: "e1".into(),
        event_type: Some("a.b".into()),
        attempt_number: 2,
        status: WebhookDeliveryLogStatus::Success,
        response_status_code: Some(200),
        duration_ms: 5,
        error_message: None,
        created_on: Timestamp { secs: 0, nanos: 0 },
        request_headers: Some(vec![
            ("X-Zeta".into(), Some("z".into())),
            ("Content-Type".into(), Some("application/json".into())),
            ("Accept".into(), None),
        ]),
        request_body: Some("{}".into()),
        response_headers: None,
        response_body: Some("ok".into()),
        next_retry_at: None,
    };
    let lines = delivery_detail_lines(&d);
    assert_eq!(lines[0], "ID:        d1");
    assert_eq!(lines[1], "Endpoint:  Orders (ep-1)");
    assert_eq!(lines[2], "Event:     a.b (id=e1)");
    assert_eq!(lines[3], "Status:    Success  HTTP=200  Duration=5ms  Attempt=2");
    assert_eq!(lines[4], "Created:   1970-01-01 00:00:00 UTC");
    assert_eq!(lines[5], "");
    assert_eq!(lines[6], "--- Request headers ---");
    assert_eq!(lines[7], "  Accept: ");
    assert_eq!(lines[8], "  Content-Type: application/json");
    assert_eq!(lines[9], "  X-Zeta: z");
    assert_eq!(&lines[10..], &["", "--- Request body ---", "{}", "", "--- Response ---", "HTTP 200", "ok"]);
}

#[test]
fn ping_report_lists_status_and_error() {
    let p = PingResponseDto {
        success: false,
        status_code: None,
        duration_ms: 31,
        error_message: Some("connection refused".into()),
    };
    assert_eq!(
        ping_lines(&p),
        vec!["Success:   false", "Duration:  31ms", "Error:     connection refused"]
    );
}

#[test]
fn event_types_are_grouped_by_sorted_group() {
    let t = |name: &str, description: &str, group: &str| EventTypeMeta {
        name: name.into(),
        description: description.into(),
        group: group.into(),
    };
    let lines = event_types_lines(&vec![
        t("transaction.card.captured", "Card captured", "Transactions"),
        t("refund.completed", "", "Refunds"),
        t("transaction.card.declined", "", "Transactions"),
    ]);
    assert_eq!(
        lines,
        vec![
            "[Refunds]".to_string(),
            "  refund.completed".to_string(),
            "[Transactions]".to_string(),
            format!("  {:<35}  Card captured", "transaction.card.captured"),
            "  transaction.card.declined".to_string(),
        ]
    );
}
