use flute_webhooks_cli::api::models::{WebhookDeliveryLogStatus, WebhookEndpointStatus};
use flute_webhooks_cli::domain::{DeliveryLog, Endpoint, EventTypeMeta};
use flute_webhooks_cli::poller::CadenceMode;
use flute_webhooks_cli::time::Timestamp;
use flute_webhooks_cli::tui::app::{
    ActionOutcome, App, AppAction, FormField, FormState, Key, KeyCode, ModalState, Screen,
};

fn key(c: char) -> Key {
    Key::new(KeyCode::Char(c))
}

fn kp(code: KeyCode) -> Key {
    Key::new(code)
}

#[test]
fn q_at_top_level_quits() {
    let mut app = App::new(None);
    app.handle_key(key('q'));
    assert!(!app.running);
}

#[test]
fn tab_switches_screens() {
    let mut app = App::new(None);
    app.handle_key(kp(KeyCode::Tab));
    assert_eq!(app.screen, Screen::DeliveryLogs);
    app.handle_key(kp(KeyCode::Tab));
    assert_eq!(app.screen, Screen::Endpoints);
}

#[test]
fn ctrl_c_always_quits_even_inside_form() {
    let mut app = App::new(None);
    app.modal = ModalState::CreateWebhook;
    app.form = FormState::new_create(0);
    app.handle_key(Key::with_ctrl(KeyCode::Char('c')));
    assert!(!app.running);
}

#[test]
fn typing_q_in_url_field_appends_q_and_does_not_quit() {
    let mut app = App::new(None);
    app.modal = ModalState::CreateWebhook;
    app.form = FormState::new_create(0);
    app.handle_key(key('q'));
    app.handle_key(key('a'));
    assert_eq!(app.form.url, "qa");
    assert!(app.running, "q in URL field must not quit the app");
}

#[test]
fn typing_q_c_d_e_in_name_field_are_all_literal() {
    let mut app = App::new(None);
    app.modal = ModalState::CreateWebhook;
    app.form = FormState::new_create(0);
    app.form.active_field = FormField::Name;
    for c in ['q', 'c', 'd', 'e'] {
        app.handle_key(key(c));
    }
    assert_eq!(app.form.name, "qcde");
    assert!(app.running);
}

#[test]
fn esc_in_form_closes_modal() {
    let mut app = App::new(None);
    app.modal = ModalState::CreateWebhook;
    app.form = FormState::new_create(0);
    app.handle_key(kp(KeyCode::Esc));
    assert_eq!(app.modal, ModalState::Closed);
}

#[test]
fn pgdown_in_form_scrolls_event_list() {
    let mut app = App::new(None);
    app.modal = ModalState::CreateWebhook;
    app.form = FormState::new_create(35);
    app.handle_key(kp(KeyCode::PageDown));
    app.handle_key(kp(KeyCode::PageDown));
    assert_eq!(app.form.scroll, 30);
}

fn catalog(n: usize) -> Vec<EventTypeMeta> {
    (0..n)
        .map(|i| EventTypeMeta {
            name: format!("event.{i}"),
            description: format!("desc {i}"),
            group: "Test".into(),
        })
        .collect()
}

#[test]
fn tabbing_to_submit_does_not_crash_with_huge_scroll() {
    let mut app = App::new(None);
    app.modal = ModalState::CreateWebhook;
    app.event_types = catalog(35);
    app.form = FormState::new_create(app.event_types.len());
    app.form.active_field = FormField::Submit;
    app.form.auto_scroll();
    assert!(
        app.form.scroll < 1000,
        "scroll must stay bounded for buttons (was {})",
        app.form.scroll
    );
    assert!(app.form.scroll > 50, "scroll must still reach the bottom of the form");
}

#[test]
fn tab_navigation_auto_scrolls_to_distant_events() {
    let mut app = App::new(None);
    app.modal = ModalState::CreateWebhook;
    app.event_types = catalog(35);
    app.form = FormState::new_create(app.event_types.len());
    assert_eq!(app.form.scroll, 0);
    app.form.active_field = FormField::Event(34);
    app.form.auto_scroll();
    assert!(
        app.form.scroll > 50,
        "scroll must follow active event 34, got {}",
        app.form.scroll
    );
    app.form.active_field = FormField::Url;
    app.form.auto_scroll();
    assert_eq!(app.form.scroll, 0);
}

#[test]
fn pgdown_clamps_to_max_scroll_so_you_dont_scroll_past_the_form() {
    let mut app = App::new(None);
    app.modal = ModalState::CreateWebhook;
    app.form = FormState::new_create(35);
    let max = app.form.max_scroll();
    for _ in 0..200 {
        app.handle_key(kp(KeyCode::PageDown));
    }
    assert_eq!(
        app.form.scroll, max,
        "scroll must clamp at max_scroll ({max}), got {}",
        app.form.scroll
    );
}

fn fake_log(id: &str, status: WebhookDeliveryLogStatus) -> DeliveryLog {
    DeliveryLog {
        id: id.into(),
        endpoint_id: "ep-1".into(),
        endpoint_name: "ep".into(),
        endpoint_url: "https://x".into(),
        event_id: format!("evt-{id}"),
        event_type: "transaction.card.captured".into(),
        status,
        attempt_number: 1,
        response_status_code: Some(200),
        duration_ms: 1,
        error_message: None,
        created_on: Timestamp { secs: 1_700_000_000, nanos: 0 },
    }
}

#[test]
fn pgdn_pgup_home_end_navigate_logs() {
    let mut app = App::new(None);
    app.screen = Screen::DeliveryLogs;
    app.logs = (0..50)
        .map(|i| fake_log(&format!("{i}"), WebhookDeliveryLogStatus::Success))
        .collect();
    app.handle_key(kp(KeyCode::PageDown));
    assert_eq!(app.selected_log, 10);
    app.handle_key(kp(KeyCode::PageDown));
    assert_eq!(app.selected_log, 20);
    app.handle_key(kp(KeyCode::PageUp));
    assert_eq!(app.selected_log, 10);
    app.handle_key(kp(KeyCode::End));
    assert_eq!(app.selected_log, 49);
    app.handle_key(kp(KeyCode::PageDown));
    assert_eq!(app.selected_log, 49);
    app.handle_key(kp(KeyCode::Home));
    assert_eq!(app.selected_log, 0);
    app.handle_key(kp(KeyCode::PageUp));
    assert_eq!(app.selected_log, 0);
}

#[test]
fn left_right_swap_cancel_and_submit() {
    let mut app = App::new(None);
    app.modal = ModalState::CreateWebhook;
    app.form = FormState::new_create(0);
    app.form.active_field = FormField::Cancel;
    app.handle_key(kp(KeyCode::Right));
    assert_eq!(app.form.active_field, FormField::Submit);
    app.handle_key(kp(KeyCode::Left));
    assert_eq!(app.form.active_field, FormField::Cancel);
    app.handle_key(kp(KeyCode::Right));
    app.handle_key(kp(KeyCode::Right));
    assert_eq!(app.form.active_field, FormField::Cancel);
}

#[test]
fn left_right_does_not_jump_out_of_text_field() {
    let mut app = App::new(None);
    app.modal = ModalState::CreateWebhook;
    app.form = FormState::new_create(0);
    app.form.active_field = FormField::Url;
    app.handle_key(kp(KeyCode::Right));
    assert_eq!(app.form.active_field, FormField::Url);
}

#[test]
fn submit_field_lands_within_visible_form() {
    let mut app = App::new(None);
    app.modal = ModalState::CreateWebhook;
    app.form = FormState::new_create(35);
    app.form.active_field = FormField::Submit;
    app.form.auto_scroll();
    assert!(app.form.scroll <= app.form.max_scroll());
    assert_eq!(app.form.scroll, app.form.max_scroll());
}

#[test]
fn cadence_mode_is_backoff_when_form_open() {
    let mut app = App::new(None);
    app.modal = ModalState::CreateWebhook;
    assert_eq!(app.cadence_mode(), CadenceMode::Backoff);
    app.modal = ModalState::Closed;
    assert_eq!(app.cadence_mode(), CadenceMode::Active);
}

#[test]
fn apply_snapshot_emits_forward_for_new_successful_logs_when_listener_enabled() {
    let mut app = App::new(None);
    app.listener_url = Some("http://127.0.0.1:3000/webhook".into());
    app.listener_enabled = true;
    app.mark_seen("old-1".into());
    let new_logs = vec![
        fake_log("old-1", WebhookDeliveryLogStatus::Success),
        fake_log("new-success", WebhookDeliveryLogStatus::Success),
        fake_log("new-failed", WebhookDeliveryLogStatus::Failure),
    ];
    let actions = app.apply_snapshot(vec![], new_logs, vec![]);
    assert_eq!(actions.len(), 1);
    match &actions[0] {
        AppAction::ForwardLog { log_id, url } => {
            assert_eq!(log_id, "new-success");
            assert_eq!(url, "http://127.0.0.1:3000/webhook");
        }
        other => panic!("unexpected action: {other:?}"),
    }
    assert!(app.has_seen("old-1"));
    assert!(app.has_seen("new-success"));
    assert!(app.has_seen("new-failed"));
}

#[test]
fn apply_snapshot_emits_no_forwards_when_listener_disabled() {
    let mut app = App::new(None);
    app.listener_url = Some("http://x".into());
    app.listener_enabled = false;
    let logs = vec![fake_log("a", WebhookDeliveryLogStatus::Success)];
    let actions = app.apply_snapshot(vec![], logs, vec![]);
    assert!(actions.is_empty());
}

#[test]
fn save_listener_config_primes_seen_ids_so_history_is_not_replayed() {
    let mut app = App::new(None);
    app.logs = vec![
        fake_log("a", WebhookDeliveryLogStatus::Success),
        fake_log("b", WebhookDeliveryLogStatus::Success),
        fake_log("c", WebhookDeliveryLogStatus::Success),
    ];
    app.listener_form.url = "http://127.0.0.1:3000/webhook".into();
    app.listener_form.enabled = true;
    app.save_listener_config();
    let actions = app.apply_snapshot(vec![], app.logs.clone(), vec![]);
    assert!(actions.is_empty(), "history must not be replayed on enable");
    let mut next_logs = app.logs.clone();
    next_logs.push(fake_log("d", WebhookDeliveryLogStatus::Success));
    let actions = app.apply_snapshot(vec![], next_logs, vec![]);
    assert_eq!(actions.len(), 1);
}

#[test]
fn t_on_successful_log_emits_forward_when_listener_url_set() {
    let mut app = App::new(None);
    app.screen = Screen::DeliveryLogs;
    app.logs = vec![fake_log("the-log", WebhookDeliveryLogStatus::Success)];
    app.listener_url = Some("http://127.0.0.1:9000/hook".into());
    match app.handle_key(key('t')) {
        AppAction::ForwardLog { log_id, url } => {
            assert_eq!(log_id, "the-log");
            assert_eq!(url, "http://127.0.0.1:9000/hook");
        }
        other => panic!("expected ForwardLog, got {other:?}"),
    }
}

#[test]
fn t_without_listener_url_toasts_instead_of_forwarding() {
    let mut app = App::new(None);
    app.screen = Screen::DeliveryLogs;
    app.logs = vec![fake_log("the-log", WebhookDeliveryLogStatus::Success)];
    let action = app.handle_key(key('t'));
    assert!(matches!(action, AppAction::Noop));
    assert!(app.toast_message.is_some());
}

#[test]
fn l_opens_listener_modal_from_logs_screen() {
    let mut app = App::new(None);
    app.screen = Screen::DeliveryLogs;
    app.handle_key(key('l'));
    assert_eq!(app.modal, ModalState::ListenerConfig);
}

#[test]
fn esc_on_main_screen_dismisses_last_error() {
    let mut app = App::new(None);
    app.last_error = Some("Poll error: 401".into());
    app.handle_key(kp(KeyCode::Esc));
    assert!(app.last_error.is_none());
    assert!(app.running, "dismissing error must not quit the app");
}

#[test]
fn enter_dismisses_error_modal() {
    let mut app = App::new(None);
    app.last_error = Some("API 500".into());
    app.handle_key(kp(KeyCode::Enter));
    assert!(app.last_error.is_none());
}

#[test]
fn error_modal_absorbs_q_and_other_keys() {
    let mut app = App::new(None);
    app.last_error = Some("API 500".into());
    app.handle_key(key('q'));
    assert!(app.running, "q must not quit while error modal is showing");
    assert!(app.last_error.is_some(), "q must not dismiss the error");
    for c in ['c', 'd', 'e', 's', 'x', '1', '2', '3'] {
        app.handle_key(key(c));
    }
    assert_eq!(app.modal, ModalState::Closed);
    assert!(app.last_error.is_some());
}

#[test]
fn error_outcome_sets_last_error_persistently() {
    let mut app = App::new(None);
    app.apply_outcome(ActionOutcome::Error("API 500 (correlation_id=abc): boom".into()));
    assert_eq!(
        app.last_error.as_deref(),
        Some("API 500 (correlation_id=abc): boom")
    );
    assert!(app.toast_message.is_none());
}

#[test]
fn r_on_failed_log_asks_for_a_retry() {
    let mut app = App::new(None);
    app.screen = Screen::DeliveryLogs;
    app.logs = vec![fake_log("bad", WebhookDeliveryLogStatus::Failure)];
    match app.handle_key(key('r')) {
        AppAction::RetryDelivery(id) => assert_eq!(id, "bad"),
        other => panic!("expected RetryDelivery, got {other:?}"),
    }
    app.logs = vec![fake_log("good", WebhookDeliveryLogStatus::Success)];
    assert!(matches!(app.handle_key(key('r')), AppAction::Noop));
    assert_eq!(
        app.toast_message.as_deref(),
        Some("Retry only works on failed deliveries")
    );
}

#[test]
fn p_on_endpoints_tab_pings_the_selected_endpoint() {
    let mut app = App::new(None);
    app.endpoints = vec![Endpoint {
        id: "ep-9".into(),
        name: "n".into(),
        endpoint_url: "https://x".into(),
        event_types: vec![],
        status: WebhookEndpointStatus::Active,
        created_on: None,
    }];
    match app.handle_key(key('p')) {
        AppAction::PingEndpoint(id) => assert_eq!(id, "ep-9"),
        other => panic!("expected PingEndpoint, got {other:?}"),
    }
}

#[test]
fn submitting_a_create_form_builds_the_request() {
    let mut app = App::new(None);
    app.event_types = catalog(3);
    app.modal = ModalState::CreateWebhook;
    app.form = FormState::new_create(3);
    for c in "https://h".chars() {
        app.handle_key(key(c));
    }
    app.form.events[1] = false;
    app.form.active_field = FormField::Submit;
    match app.handle_key(kp(KeyCode::Enter)) {
        AppAction::Create(r) => {
            assert_eq!(r.name, "Untitled Webhook");
            assert_eq!(r.endpoint_url, "https://h");
            assert_eq!(r.event_types, vec!["event.0".to_string(), "event.2".to_string()]);
        }
        other => panic!("expected Create, got {other:?}"),
    }
}

#[test]
fn submitting_without_url_or_events_is_refused() {
    let mut app = App::new(None);
    app.event_types = catalog(2);
    app.modal = ModalState::CreateWebhook;
    app.form = FormState::new_create(2);
    app.form.active_field = FormField::Submit;
    assert!(matches!(app.handle_key(kp(KeyCode::Enter)), AppAction::Noop));
    assert_eq!(app.toast_message.as_deref(), Some("Endpoint URL is required"));
    app.form.url = "https://h".into();
    app.form.active_field = FormField::UncheckAll;
    app.handle_key(kp(KeyCode::Enter));
    app.form.active_field = FormField::Submit;
    assert!(matches!(app.handle_key(kp(KeyCode::Enter)), AppAction::Noop));
    assert_eq!(app.toast_message.as_deref(), Some("Select at least one event type"));
}

#[test]
fn toast_disappears_after_its_ticks() {
    let mut app = App::new(None);
    app.show_toast("hello".into());
    for _ in 0..19 {
        app.tick_toast();
    }
    assert!(app.toast_message.is_some());
    app.tick_toast();
    assert!(app.toast_message.is_none());
}

#[test]
fn filters_cycle_and_select_rows() {
    let mut app = App::new(None);
    app.screen = Screen::DeliveryLogs;
    app.logs = vec![
        fake_log("a", WebhookDeliveryLogStatus::Success),
        fake_log("b", WebhookDeliveryLogStatus::Failure),
        fake_log("c", WebhookDeliveryLogStatus::Success),
    ];
    assert_eq!(app.filtered_log_indices(), vec![0, 1, 2]);
    app.handle_key(key('3'));
    assert_eq!(app.filtered_log_indices(), vec![0, 2]);
    app.handle_key(key('3'));
    assert_eq!(app.filtered_log_indices(), vec![1]);
    app.handle_key(key('3'));
    app.handle_key(key('s'));
    assert_eq!(app.filtered_log_indices(), vec![2, 1, 0]);
    app.handle_key(key('x'));
    assert_eq!(app.filter_status, 0);
}
