//! The text the dashboard draws: titles, table cells, labels and help.

use vstd::prelude::*;
use vstd::string::StringExecFns;
use crate::api::models::{endpoint_status_name, endpoint_status_text, WebhookDeliveryLogStatus};
use crate::cli::output::{http_text, millis_text, status_label, status_label_text};
use crate::domain::{DeliveryLog, Endpoint};
use crate::text::{decimal, i64_to_decimal, u64_to_decimal};
use crate::time::{formatted_text, format_utc};
use crate::tui::app::{App, ModalState, Screen};

verus! {

/// The title of the tab bar, with the polling warning when there is one.
pub open spec fn title_text(warning: Option<String>) -> Seq<char> {
    match warning {
        Some(w) => " Flute Webhook Dashboard  ⚠ "@ + w@ + " "@,
        None => " Flute Webhook Dashboard "@,
    }
}

/// The title of the tab bar (see [`title_text`]).
pub fn title(warning: &Option<String>) -> (r: String)
    ensures
        r@ == title_text(*warning),
{
    match warning {
        Some(w) => {
            let mut s = String::from_str(" Flute Webhook Dashboard  ⚠ ");
            s.append(w.as_str());
            s.append(" ");
            s
        },
        None => String::from_str(" Flute Webhook Dashboard "),
    }
}

/// The events column of an endpoint: `All` when it takes every one of the
/// `total` event types, `subscribed/total` otherwise, and just the count
/// while the catalog is not loaded.
pub open spec fn events_text(subscribed: nat, total: nat) -> Seq<char> {
    if total > 0 && subscribed == total {
        "All"@
    } else if total > 0 {
        decimal(subscribed) + "/"@ + decimal(total)
    } else {
        decimal(subscribed)
    }
}

/// The events column of an endpoint (see [`events_text`]).
pub fn events_display(subscribed: usize, total: usize) -> (r: String)
    ensures
        r@ == events_text(subscribed as nat, total as nat),
{
    if total > 0 && subscribed == total {
        String::from_str("All")
    } else if total > 0 {
        let mut s = u64_to_decimal(subscribed as u64);
        s.append("/");
        let t = u64_to_decimal(total as u64);
        s.append(t.as_str());
        s
    } else {
        u64_to_decimal(subscribed as u64)
    }
}

/// What the endpoints tab shows when there is no endpoint.
pub const NO_ENDPOINTS_TEXT: &'static str = "No webhooks yet. Press [c] to create one.";

/// What the delivery-log tab shows when no log passes the filters.
pub const NO_LOGS_TEXT: &'static str = "No delivery logs match these filters.";

/// Key hints in the actions column of an endpoint row.
pub const ENDPOINT_ACTIONS: &'static str = "[e]dit [d]el [p]ing";

/// The cells of an endpoint row: name, URL, events, status, key hints.
pub open spec fn endpoint_cells_text(ep: Endpoint, total: nat) -> Seq<Seq<char>> {
    seq![
        ep.name@,
        ep.endpoint_url@,
        events_text(ep.event_types@.len(), total),
        endpoint_status_name(ep.status),
        ENDPOINT_ACTIONS@,
    ]
}

/// The cells of an endpoint row when the catalog has `total` event types.
pub fn endpoint_cells(ep: &Endpoint, total: usize) -> (r: Vec<String>)
    ensures
        r.deep_view() == endpoint_cells_text(*ep, total as nat),
{
    let mut v: Vec<String> = Vec::new();
    v.push(ep.name.clone());
    v.push(ep.endpoint_url.clone());
    v.push(events_display(ep.event_types.len(), total));
    v.push(String::from_str(endpoint_status_text(ep.status)));
    v.push(String::from_str(ENDPOINT_ACTIONS));
    assert(v.deep_view() =~= endpoint_cells_text(*ep, total as nat));
    v
}

/// Timestamp pattern of the delivery-log tab.
pub const TAB_TIME_PATTERN: &'static str = "%m/%d/%y %H:%M:%S";

/// Key hints in the actions column of a delivery-log row: trigger only for
/// successes when a listener URL is set, retry only for failures.
pub open spec fn log_actions_text(status: WebhookDeliveryLogStatus, listener_set: bool) -> Seq<char> {
    match status {
        WebhookDeliveryLogStatus::Success => if listener_set { "[v]iew [t]rig"@ } else { "[v]iew"@ },
        WebhookDeliveryLogStatus::Failure => "[v]iew [r]etry"@,
        WebhookDeliveryLogStatus::Pending => "[v]iew"@,
    }
}

/// The key hints of a delivery-log row (see [`log_actions_text`]).
pub fn log_actions(status: WebhookDeliveryLogStatus, listener_set: bool) -> (r: &'static str)
    ensures
        r@ == log_actions_text(status, listener_set),
{
    match status {
        WebhookDeliveryLogStatus::Success => if listener_set { "[v]iew [t]rig" } else { "[v]iew" },
        WebhookDeliveryLogStatus::Failure => "[v]iew [r]etry",
        WebhookDeliveryLogStatus::Pending => "[v]iew",
    }
}

/// The cells of a delivery-log row: time, event type, status, HTTP
/// status, duration, endpoint name, key hints.
pub open spec fn log_cells_text(l: DeliveryLog, listener_set: bool) -> Seq<Seq<char>> {
    seq![
        formatted_text(l.created_on, TAB_TIME_PATTERN@),
        l.event_type@,
        status_label(l.status),
        http_text(l.response_status_code),
        millis_text(l.duration_ms),
        l.endpoint_name@,
        log_actions_text(l.status, listener_set),
    ]
}

/// The cells of a delivery-log row (see [`log_cells_text`]).
pub fn log_cells(l: &DeliveryLog, listener_set: bool) -> (r: Vec<String>)
    ensures
        r.deep_view() == log_cells_text(*l, listener_set),
{
    let mut v: Vec<String> = Vec::new();
    v.push(format_utc(l.created_on, TAB_TIME_PATTERN));
    v.push(l.event_type.clone());
    v.push(String::from_str(status_label_text(l.status)));
    let http = match l.response_status_code {
        Some(c) => i64_to_decimal(c as i64),
        None => String::from_str("—"),
    };
    v.push(http);
    let mut d = i64_to_decimal(l.duration_ms as i64);
    d.append("ms");
    v.push(d);
    v.push(l.endpoint_name.clone());
    v.push(String::from_str(log_actions(l.status, listener_set)));
    assert(v.deep_view() =~= log_cells_text(*l, listener_set));
    v
}

/// The endpoint filter's label: `All`, or the name of the chosen endpoint.
pub open spec fn endpoint_filter_text(a: App) -> Seq<char> {
    if a.filter_endpoint == 0 || a.filter_endpoint - 1 >= a.endpoints@.len() {
        "All"@
    } else {
        a.endpoints@[a.filter_endpoint - 1].name@
    }
}

/// The event filter's label: `All`, or the chosen event type.
pub open spec fn event_filter_text(a: App) -> Seq<char> {
    if a.filter_event == 0 || a.filter_event - 1 >= a.event_types@.len() {
        "All"@
    } else {
        a.event_types@[a.filter_event - 1].name@
    }
}

/// The status filter's label.
pub open spec fn status_filter_text(f: usize) -> Seq<char> {
    if f == 1 { "Success"@ } else if f == 2 { "Failed"@ } else { "All"@ }
}

/// The labels of the filter bar of the delivery-log tab.
pub open spec fn filter_bar_text(a: App) -> Seq<Seq<char>> {
    seq![
        " [1] Endpoint: "@ + endpoint_filter_text(a) + " "@,
        " [2] Event: "@ + event_filter_text(a) + " "@,
        " [3] Status: "@ + status_filter_text(a.filter_status) + " "@,
        " [s] Sort: "@ + (if a.sort_ascending { "Asc"@ } else { "Desc"@ }) + " "@,
        " [x] Clear "@,
    ]
}

fn framed(label: &str, value: &str) -> (r: String)
    ensures
        r@ == label@ + value@ + " "@,
{
    let mut s = String::from_str(label);
    s.append(value);
    s.append(" ");
    s
}

/// The labels of the filter bar (see [`filter_bar_text`]).
pub fn filter_bar(a: &App) -> (r: Vec<String>)
    ensures
        r.deep_view() == filter_bar_text(*a),
{
    let mut v: Vec<String> = Vec::new();
    let ep = if a.filter_endpoint == 0 || a.filter_endpoint - 1 >= a.endpoints.len() {
        String::from_str("All")
    } else {
        a.endpoints[a.filter_endpoint - 1].name.clone()
    };
    v.push(framed(" [1] Endpoint: ", ep.as_str()));
    let ev = if a.filter_event == 0 || a.filter_event - 1 >= a.event_types.len() {
        String::from_str("All")
    } else {
        a.event_types[a.filter_event - 1].name.clone()
    };
    v.push(framed(" [2] Event: ", ev.as_str()));
    let st = if a.filter_status == 1 {
        "Success"
    } else if a.filter_status == 2 {
        "Failed"
    } else {
        "All"
    };
    v.push(framed(" [3] Status: ", st));
    v.push(framed(" [s] Sort: ", if a.sort_ascending { "Asc" } else { "Desc" }));
    v.push(String::from_str(" [x] Clear "));
    assert(v.deep_view() =~= filter_bar_text(*a));
    v
}

/// The key help at the bottom of the screen, for what is in front.
pub open spec fn help_text_for(a: App) -> Seq<char> {
    if a.update_notice is Some {
        "Enter/Esc: dismiss"@
    } else {
        match a.modal {
            ModalState::Closed => if a.last_error is Some {
                "Enter/Esc: dismiss error"@
            } else {
                match a.screen {
                    Screen::Endpoints => "Tab: switch | ↑↓/jk: nav | c: create | e: edit | d: delete | p: ping | q: quit"@,
                    Screen::DeliveryLogs => "Tab: switch | ↑↓/jk: nav | v: details | t: trigger | r: retry | l: listener | 1-3: filters | s: sort | x: clear | q: quit"@,
                }
            },
            ModalState::CreateWebhook => "Tab/↑↓: fields | ←→: Cancel/Submit | Space: toggle | Enter: activate | PgUp/PgDn: scroll | Esc: cancel"@,
            ModalState::EditWebhook(_) => "Tab/↑↓: fields | ←→: Cancel/Submit | Space: toggle | Enter: activate | PgUp/PgDn: scroll | Esc: cancel"@,
            ModalState::DeleteWebhook(_) => "y/Enter: confirm | n/Esc: cancel"@,
            ModalState::WebhookCreated(_) => "Enter/Esc: done"@,
            ModalState::DeliveryDetails(_) => "↑↓/jk/PgUp/PgDn: scroll | Esc/Enter/q: close"@,
            ModalState::ListenerConfig => "Tab/↑↓: fields | type URL | Space: toggle | Enter: activate | Esc: cancel"@,
        }
    }
}

/// The key help for the current state (see [`help_text_for`]).
pub fn help_text(a: &App) -> (r: &'static str)
    ensures
        r@ == help_text_for(*a),
{
    if a.update_notice.is_some() {
        return "Enter/Esc: dismiss";
    }
    match a.modal {
        ModalState::Closed => if a.last_error.is_some() {
            "Enter/Esc: dismiss error"
        } else {
            match a.screen {
                Screen::Endpoints => "Tab: switch | ↑↓/jk: nav | c: create | e: edit | d: delete | p: ping | q: quit",
                Screen::DeliveryLogs => "Tab: switch | ↑↓/jk: nav | v: details | t: trigger | r: retry | l: listener | 1-3: filters | s: sort | x: clear | q: quit",
            }
        },
        ModalState::CreateWebhook => "Tab/↑↓: fields | ←→: Cancel/Submit | Space: toggle | Enter: activate | PgUp/PgDn: scroll | Esc: cancel",
        ModalState::EditWebhook(_) => "Tab/↑↓: fields | ←→: Cancel/Submit | Space: toggle | Enter: activate | PgUp/PgDn: scroll | Esc: cancel",
        ModalState::DeleteWebhook(_) => "y/Enter: confirm | n/Esc: cancel",
        ModalState::WebhookCreated(_) => "Enter/Esc: done",
        ModalState::DeliveryDetails(_) => "↑↓/jk/PgUp/PgDn: scroll | Esc/Enter/q: close",
        ModalState::ListenerConfig => "Tab/↑↓: fields | type URL | Space: toggle | Enter: activate | Esc: cancel",
    }
}

/// Where a toast of `msg_len` bytes goes on a `width` × `height` screen:
/// `(x, y, w, h)`, centred, three rows high, just above the help bar, at
/// most the screen's width.
pub open spec fn toast_rect(msg_len: nat, width: u16, height: u16) -> (u16, u16, u16, u16) {
    let len = if msg_len > u16::MAX { u16::MAX as int } else { msg_len as int };
    let padded = if len + 4 > u16::MAX { u16::MAX as int } else { len + 4 };
    let w = if padded < width { padded } else { width as int };
    let x = (width - w) / 2;
    let y = if height >= 4 { height - 4 } else { 0 };
    (x as u16, y as u16, w as u16, 3)
}

/// The rectangle of a toast (see [`toast_rect`]).
pub fn toast_area(msg_len: usize, width: u16, height: u16) -> (r: (u16, u16, u16, u16))
    ensures
        r == toast_rect(msg_len as nat, width, height),
        r.0 + r.2 <= width,
{
    let len: u16 = if msg_len > 65535 { u16::MAX } else { msg_len as u16 };
    let padded = len.saturating_add(4);
    let w = if padded < width { padded } else { width };
    let x = (width - w) / 2;
    let y = height.saturating_sub(4);
    (x, y, w, 3)
}

/// The lines of the dialog announcing release `version`.
pub open spec fn update_notice_text(version: Seq<char>) -> Seq<Seq<char>> {
    seq![
        " Update Available "@,
        "Version "@ + version + " is available."@,
        "Run `flute-webhooks update` to install it."@,
        "[Enter/Esc] Dismiss"@,
    ]
}

/// The lines of the dialog announcing release `version`.
pub fn update_notice_lines(version: &str) -> (r: Vec<String>)
    ensures
        r.deep_view() == update_notice_text(version@),
{
    let mut v: Vec<String> = Vec::new();
    v.push(String::from_str(" Update Available "));
    let mut l = String::from_str("Version ");
    l.append(version);
    l.append(" is available.");
    v.push(l);
    v.push(String::from_str("Run `flute-webhooks update` to install it."));
    v.push(String::from_str("[Enter/Esc] Dismiss"));
    assert(v.deep_view() =~= update_notice_text(version@));
    v
}


/// Position of the selected tab in the tab bar.
pub fn tab_index(s: Screen) -> (r: usize)
    ensures
        r == (match s {
            Screen::Endpoints => 0usize,
            Screen::DeliveryLogs => 1usize,
        }),
{
    match s {
        Screen::Endpoints => 0,
        Screen::DeliveryLogs => 1,
    }
}

/// The three percentages that centre a band of `pct` percent: the margin,
/// the band, the margin.
pub fn centered_split(pct: u16) -> (r: (u16, u16, u16))
    requires
        pct <= 100,
    ensures
        r.0 == (100 - pct) / 2,
        r.1 == pct,
        r.2 == (100 - pct) / 2,
        r.0 + r.1 + r.2 <= 100,
{
    let margin = (100 - pct) / 2;
    (margin, pct, margin)
}

} // verus!
