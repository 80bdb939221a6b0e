use flute_webhooks_cli::cli::webhooks::{delete_gate, delete_refused_message, DeleteGate};
use flute_webhooks_cli::api::models::{GetWebhookEndpointDto, WebhookEndpointStatus};
use flute_webhooks_cli::cli::webhooks::{
    build_deliveries_query, create_request, delete_confirmed, deleted_message, merge_update,
};
use flute_webhooks_cli::cli::{DeliveryStatusArg, EndpointStatusArg, OutputFormat};

#[test]
fn deliveries_query_is_well_formed() {
    let q = build_deliveries_query(None, None, 25);
    assert_eq!(q, "?pageSize=25");

    let q = build_deliveries_query(Some("ep-1"), Some(DeliveryStatusArg::Success), 100);
    assert_eq!(q, "?pageSize=100&webhookId=ep-1&status=Success");

    let q = build_deliveries_query(None, Some(DeliveryStatusArg::Failed), 1);
    assert_eq!(q, "?pageSize=1&status=Failure");

    let q = build_deliveries_query(None, Some(DeliveryStatusArg::Pending), 1);
    assert_eq!(q, "?pageSize=1&status=Pending");
}

#[test]
fn endpoints_create_rejects_empty_events() {
    let r = create_request("https://x".into(), vec![], None);
    let msg = r.unwrap_err();
    assert!(msg.contains("--events is required"), "got: {msg}");
}

#[test]
fn create_request_defaults_the_name() {
    let r = create_request("https://x".into(), vec!["a.b".into()], None).unwrap();
    assert_eq!(r.name, "Untitled Webhook");
    assert_eq!(r.endpoint_url, "https://x");
    assert_eq!(r.event_types, vec!["a.b".to_string()]);
    let r = create_request("https://x".into(), vec!["a.b".into()], Some("Mine".into())).unwrap();
    assert_eq!(r.name, "Mine");
}

#[test]
fn endpoints_update_does_get_then_put_with_merged_state() {
    let current = GetWebhookEndpointDto {
        id: "ep-1".into(),
        name: Some("Old".into()),
        endpoint_url: Some("https://old".into()),
        status: WebhookEndpointStatus::Active,
        event_types: Some(vec!["a.b".into(), "c.d".into()]),
        created_on: None,
        modified_on: None,
    };
    let merged = merge_update(&current, None, None, Some("New".into()), None);
    assert_eq!(merged.name, "New");
    assert_eq!(merged.endpoint_url, "https://old");
    assert_eq!(merged.status, WebhookEndpointStatus::Active);
    assert_eq!(merged.event_types, vec!["a.b".to_string(), "c.d".to_string()]);

    let merged = merge_update(
        &current,
        Some("https://new".into()),
        Some(vec!["x.y".into()]),
        None,
        Some(EndpointStatusArg::Inactive),
    );
    assert_eq!(merged.name, "Old");
    assert_eq!(merged.endpoint_url, "https://new");
    assert_eq!(merged.status, WebhookEndpointStatus::Inactive);
    assert_eq!(merged.event_types, vec!["x.y".to_string()]);
}

#[test]
fn delete_needs_an_explicit_yes() {
    assert!(delete_confirmed("yes\n"));
    assert!(delete_confirmed("  yes "));
    assert!(!delete_confirmed("y"));
    assert!(!delete_confirmed("YES"));
    assert!(!delete_confirmed(""));
}

#[test]
fn deleted_message_in_both_formats() {
    assert_eq!(deleted_message("ep-1", OutputFormat::Json), r#"{"deleted":"ep-1"}"#);
    assert_eq!(deleted_message("ep-1", OutputFormat::Table), "Deleted endpoint ep-1.");
}

#[test]
fn delete_without_yes_prompts_only_on_an_interactive_table_run() {
    assert_eq!(delete_gate(true, OutputFormat::Json, false), DeleteGate::Proceed);
    assert_eq!(delete_gate(false, OutputFormat::Table, true), DeleteGate::Prompt);
    assert_eq!(delete_gate(false, OutputFormat::Json, true), DeleteGate::Refuse);
    assert_eq!(delete_gate(false, OutputFormat::Table, false), DeleteGate::Refuse);
    assert_eq!(
        delete_refused_message("ep-1"),
        "refusing to delete endpoint ep-1 without --yes (no interactive confirmation possible)"
    );
}
