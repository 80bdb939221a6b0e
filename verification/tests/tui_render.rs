use flute_webhooks_cli::api::models::WebhookEndpointStatus;
use flute_webhooks_cli::domain::{Endpoint, EventTypeMeta};
use flute_webhooks_cli::time::Timestamp;
use flute_webhooks_cli::tui::app::{App, Key, KeyCode};
use flute_webhooks_cli::tui::view::{
    endpoint_cells, events_display, help_text, title, toast_area, update_notice_lines,
};

fn endpoint(name: &str, subscribed_event_types: Vec<&str>) -> Endpoint {
    Endpoint {
        id: name.into(),
        name: name.into(),
        endpoint_url: format!("https://example.com/{name}"),
        event_types: subscribed_event_types.into_iter().map(String::from).collect(),
        status: WebhookEndpointStatus::Active,
        created_on: Some(Timestamp { secs: 1_700_000_000, nanos: 0 }),
    }
}

fn meta(name: &str) -> EventTypeMeta {
    EventTypeMeta {
        name: name.into(),
        description: String::new(),
        group: "Test".into(),
    }
}

#[test]
fn endpoints_table_shows_subscribed_event_count_not_strings() {
    let mut app = App::new(None);
    app.event_types = vec![
        meta("transaction.card.captured"),
        meta("transaction.card.declined"),
        meta("payment.failed"),
        meta("settlement.batch.completed"),
    ];
    app.endpoints = vec![
        endpoint(
            "Order Processing",
            vec!["transaction.card.captured", "payment.failed"],
        ),
        endpoint(
            "Hot path",
            vec![
                "transaction.card.captured",
                "transaction.card.declined",
                "payment.failed",
                "settlement.batch.completed",
            ],
        ),
    ];
    let rows: Vec<Vec<String>> = app
        .endpoints
        .iter()
        .map(|ep| endpoint_cells(ep, app.event_types.len()))
        .collect();
    let text = rows.iter().map(|r| r.join(" | ")).collect::<Vec<_>>().join("\n");
    assert!(text.contains("Order Processing"), "row missing: {text}");
    assert!(text.contains("2/4"), "subscribed count missing: {text}");
    assert!(text.contains("All"), "All marker missing: {text}");
    assert!(
        !text.contains("transaction.card.captured"),
        "events column should be a count, not the event-type names: {text}"
    );
}

#[test]
fn update_notice_renders_dismissable_modal_overlay() {
    let mut app = App::new(None);
    app.set_update_notice(Some("9.9.9".into()));
    let text = update_notice_lines(app.update_notice.as_deref().unwrap()).join("\n");
    assert!(text.contains("Update Available"), "modal should announce itself: {text}");
    assert!(text.contains("9.9.9"), "modal should embed the version");
    assert!(text.contains("flute-webhooks update"), "modal should tell the user how to install");
    assert!(text.contains("Dismiss"), "modal should advertise the dismiss action");
    assert_eq!(help_text(&app), "Enter/Esc: dismiss");
}

#[test]
fn update_notice_can_be_dismissed_with_enter() {
    let mut app = App::new(None);
    app.set_update_notice(Some("9.9.9".into()));
    assert!(app.update_notice.is_some());
    let _ = app.handle_key(Key::new(KeyCode::Enter));
    assert!(
        app.update_notice.is_none(),
        "Enter should dismiss the update-available modal"
    );
}

#[test]
fn update_notice_takes_other_keys() {
    let mut app = App::new(None);
    app.set_update_notice(Some("9.9.9".into()));
    app.handle_key(Key::new(KeyCode::Char('q')));
    assert!(app.running);
    assert!(app.update_notice.is_some());
}

#[test]
fn events_column_formats() {
    assert_eq!(events_display(4, 4), "All");
    assert_eq!(events_display(2, 4), "2/4");
    assert_eq!(events_display(3, 0), "3");
}

#[test]
fn title_carries_the_poll_warning() {
    assert_eq!(title(&None), " Flute Webhook Dashboard ");
    assert_eq!(title(&Some("slow".into())), " Flute Webhook Dashboard  ⚠ slow ");
}

#[test]
fn toast_is_centred_above_the_help_bar() {
    assert_eq!(toast_area(6, 100, 30), (45, 26, 10, 3));
    assert_eq!(toast_area(500, 80, 2), (0, 0, 80, 3));
}
