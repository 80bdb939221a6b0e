//! How every key press changes the dashboard, and what work it hands to the
//! background worker.

use vstd::prelude::*;
use vstd::string::StringExecFns;
use crate::api::models::{
    CreateWebhookEndpointRequest, UpdateWebhookEndpointRequest, WebhookDeliveryLogStatus,
    WebhookEndpointStatus,
};
use crate::domain::EventTypeMeta;
use crate::text::{id_prefix, pop_char, push_char, short_id, trim_chars, trimmed};
use crate::tui::app::{
    auto_scroll_spec, filtered_logs, form_next_spec, form_prev_spec, is_create_form, is_edit_form,
    lemma_filtered_rows_are_log_positions, listener_next_spec, listener_prev_spec, log_ids,
    max_scroll_spec, sat16, App, AppAction, FormField, FormState, Key, KeyCode, ListenerField,
    ListenerForm, ModalState, Screen, DETAIL_LINE_STEP, DETAIL_PAGE_STEP, FORM_PAGE_LINES,
    PAGE_STEP, TOAST_TICKS,
};

verus! {

/// `n` is `o` with a toast showing `msg`, and nothing else changed.
pub open spec fn toasted(o: App, n: App, msg: Seq<char>) -> bool {
    &&& n.toast_message matches Some(m) && m@ == msg
    &&& n == (App { toast_message: n.toast_message, toast_timer: TOAST_TICKS, ..o })
}

/// The key leaves the dashboard as it was and asks for nothing.
pub open spec fn ignored(o: App, n: App, a: AppAction) -> bool {
    n == o && a is Noop
}

/// `u16` subtraction that stops at zero.
pub open spec fn sat_sub16(x: u16, y: u16) -> u16 {
    if x >= y { (x - y) as u16 } else { 0 }
}

/// The state the dashboard keeps across key presses.
pub open spec fn app_wf(a: App) -> bool {
    &&& a.endpoints@.len() > 0 ==> a.selected_endpoint < a.endpoints@.len()
    &&& a.endpoints@.len() < usize::MAX
    &&& a.event_types@.len() < usize::MAX
    &&& a.logs@.len() < usize::MAX - PAGE_STEP
    &&& a.selected_log < usize::MAX - PAGE_STEP
    &&& a.filter_endpoint < usize::MAX
    &&& a.filter_event < usize::MAX
    &&& a.filter_status < usize::MAX
    &&& a.form.active_field matches FormField::Event(i) ==> i < usize::MAX
    &&& a.seen_log_ids.deep_view().no_duplicates()
}

/// Whether `k` reaches the delivery-log tab and acts on the selected row.
pub open spec fn reads_selected_log(o: App, k: Key) -> bool {
    &&& k.press
    &&& !(k.code == KeyCode::Char('c') && k.ctrl)
    &&& o.update_notice is None
    &&& o.modal == ModalState::Closed
    &&& o.last_error is None
    &&& o.screen == Screen::DeliveryLogs
    &&& (k.code == KeyCode::Enter || k.code == KeyCode::Char('v') || k.code == KeyCode::Char('t')
        || k.code == KeyCode::Char('r'))
}

/// Keys on the endpoints tab: move, create, edit, delete, ping.
pub open spec fn endpoints_key_effect(o: App, n: App, k: Key, a: AppAction) -> bool {
    let cnt = o.endpoints@.len();
    let sel = o.selected_endpoint;
    if (k.code == KeyCode::Up || k.code == KeyCode::Char('k')) && cnt > 0 && sel > 0 {
        n == (App { selected_endpoint: (sel - 1) as usize, ..o }) && a is Noop
    } else if (k.code == KeyCode::Down || k.code == KeyCode::Char('j')) && cnt > 0 && sel + 1 < cnt {
        n == (App { selected_endpoint: (sel + 1) as usize, ..o }) && a is Noop
    } else if k.code == KeyCode::Char('c') {
        &&& is_create_form(n.form, o.event_types@.len())
        &&& n == (App { form: n.form, modal: ModalState::CreateWebhook, ..o })
        &&& a is Noop
    } else if (k.code == KeyCode::Char('e') || k.code == KeyCode::Enter) && cnt > 0 {
        &&& is_edit_form(n.form, o.endpoints@[sel as int], o.event_types@)
        &&& n == (App { form: n.form, modal: ModalState::EditWebhook(sel), ..o })
        &&& a is Noop
    } else if k.code == KeyCode::Char('d') && cnt > 0 {
        n == (App { modal: ModalState::DeleteWebhook(sel), ..o }) && a is Noop
    } else if k.code == KeyCode::Char('p') && cnt > 0 {
        n == o && (a matches AppAction::PingEndpoint(id) && id@ == o.endpoints@[sel as int].id@)
    } else {
        ignored(o, n, a)
    }
}

/// The listener dialog as the `l` key opens it: the current settings,
/// focused on the URL.
pub open spec fn listener_form_of(f: ListenerForm, o: App) -> bool {
    &&& f.url@ == (match o.listener_url {
        Some(u) => u@,
        None => Seq::empty(),
    })
    &&& f.enabled == o.listener_enabled
    &&& f.active_field == ListenerField::Url
}

/// `t` on a delivery log: forward it when it succeeded and a listener URL
/// is set; otherwise say why not.
pub open spec fn trigger_effect(o: App, n: App, id: Seq<char>, status: WebhookDeliveryLogStatus, a: AppAction) -> bool {
    if status != WebhookDeliveryLogStatus::Success {
        toasted(o, n, "Trigger only works on successful deliveries"@) && a is Noop
    } else {
        match o.listener_url {
            None => toasted(o, n, "No listener URL configured (press [l] to set one)"@) && a is Noop,
            Some(u) => {
                &&& toasted(o, n, "Forwarding "@ + id_prefix(id) + " -> "@ + u@)
                &&& a matches AppAction::ForwardLog { log_id, url } && log_id@ == id && url@ == u@
            },
        }
    }
}

/// `r` on a delivery log: retry it when it failed; otherwise say why not.
pub open spec fn retry_effect(o: App, n: App, id: Seq<char>, status: WebhookDeliveryLogStatus, a: AppAction) -> bool {
    if status != WebhookDeliveryLogStatus::Failure {
        toasted(o, n, "Retry only works on failed deliveries"@) && a is Noop
    } else {
        n == o && (a matches AppAction::RetryDelivery(x) && x@ == id)
    }
}

/// Keys on the delivery-log tab: move and page through the filtered rows,
/// open, forward or retry the selected one, cycle the filters, sort, and
/// open the listener dialog.
pub open spec fn logs_key_effect(o: App, n: App, k: Key, a: AppAction) -> bool {
    let f = filtered_logs(o);
    let cnt = f.len();
    let sel = o.selected_log;
    if (k.code == KeyCode::Up || k.code == KeyCode::Char('k')) && cnt > 0 && sel > 0 {
        n == (App { selected_log: (sel - 1) as usize, ..o }) && a is Noop
    } else if (k.code == KeyCode::Down || k.code == KeyCode::Char('j')) && cnt > 0 && sel + 1 < cnt {
        n == (App { selected_log: (sel + 1) as usize, ..o }) && a is Noop
    } else if k.code == KeyCode::PageDown && cnt > 0 {
        let to = if sel + PAGE_STEP < cnt - 1 { sel + PAGE_STEP } else { cnt - 1 };
        n == (App { selected_log: to as usize, ..o }) && a is Noop
    } else if k.code == KeyCode::PageUp && cnt > 0 {
        let to = if sel >= PAGE_STEP { sel - PAGE_STEP } else { 0 };
        n == (App { selected_log: to as usize, ..o }) && a is Noop
    } else if k.code == KeyCode::Home && cnt > 0 {
        n == (App { selected_log: 0, ..o }) && a is Noop
    } else if k.code == KeyCode::End && cnt > 0 {
        n == (App { selected_log: (cnt - 1) as usize, ..o }) && a is Noop
    } else if (k.code == KeyCode::Enter || k.code == KeyCode::Char('v')) && cnt > 0 {
        let id = o.logs@[f[sel as int] as int].id@;
        &&& n.modal matches ModalState::DeliveryDetails(x) && x@ == id
        &&& n == (App { detail_scroll: 0, modal: n.modal, ..o })
        &&& a matches AppAction::OpenDetails(x) && x@ == id
    } else if k.code == KeyCode::Char('1') {
        let next = (o.filter_endpoint + 1) % (o.endpoints@.len() + 1) as int;
        n == (App { filter_endpoint: next as usize, selected_log: 0, ..o }) && a is Noop
    } else if k.code == KeyCode::Char('2') {
        let next = (o.filter_event + 1) % (o.event_types@.len() + 1) as int;
        n == (App { filter_event: next as usize, selected_log: 0, ..o }) && a is Noop
    } else if k.code == KeyCode::Char('3') {
        let next = (o.filter_status + 1) % 3;
        n == (App { filter_status: next as usize, selected_log: 0, ..o }) && a is Noop
    } else if k.code == KeyCode::Char('s') {
        n == (App { sort_ascending: !o.sort_ascending, ..o }) && a is Noop
    } else if k.code == KeyCode::Char('x') {
        &&& n == (App { filter_endpoint: 0, filter_event: 0, filter_status: 0, selected_log: 0, ..o })
        &&& a is Noop
    } else if k.code == KeyCode::Char('l') {
        &&& listener_form_of(n.listener_form, o)
        &&& n == (App { listener_form: n.listener_form, modal: ModalState::ListenerConfig, ..o })
        &&& a is Noop
    } else if k.code == KeyCode::Char('t') && cnt > 0 {
        let l = o.logs@[f[sel as int] as int];
        trigger_effect(o, n, l.id@, l.status, a)
    } else if k.code == KeyCode::Char('r') && cnt > 0 {
        let l = o.logs@[f[sel as int] as int];
        retry_effect(o, n, l.id@, l.status, a)
    } else {
        ignored(o, n, a)
    }
}

/// Keys with no dialog open. An error on screen takes every key: Enter or
/// Esc dismiss it, any other key does nothing. Otherwise `q` quits, Tab
/// switches tabs, and the tab's own keys apply.
pub open spec fn main_key_effect(o: App, n: App, k: Key, a: AppAction) -> bool {
    if o.last_error is Some {
        if k.code == KeyCode::Esc || k.code == KeyCode::Enter {
            n == (App { last_error: None, ..o }) && a is Noop
        } else {
            ignored(o, n, a)
        }
    } else if k.code == KeyCode::Char('q') {
        n == (App { running: false, ..o }) && a is Noop
    } else if k.code == KeyCode::Tab || k.code == KeyCode::BackTab {
        let s = match o.screen {
            Screen::Endpoints => Screen::DeliveryLogs,
            Screen::DeliveryLogs => Screen::Endpoints,
        };
        n == (App { screen: s, ..o }) && a is Noop
    } else {
        match o.screen {
            Screen::Endpoints => endpoints_key_effect(o, n, k, a),
            Screen::DeliveryLogs => logs_key_effect(o, n, k, a),
        }
    }
}

/// What saving the listener dialog does (see
/// [`App::save_listener_config`]).
pub open spec fn listener_saved(o: App, n: App) -> bool {
    let url = trimmed(o.listener_form.url@);
    let enabled = o.listener_form.enabled && url.len() > 0;
    &&& url.len() == 0 ==> n.listener_url is None
    &&& url.len() > 0 ==> (n.listener_url matches Some(u) && u@ == url)
    &&& n.listener_enabled == enabled
    &&& enabled && !o.listener_enabled ==> (n.seen_log_ids.deep_view().no_duplicates() && forall|x: Seq<char>|
        #[trigger] n.seen_log_ids.deep_view().contains(x) <==> log_ids(o.logs@).contains(x))
    &&& !(enabled && !o.listener_enabled) ==> n.seen_log_ids == o.seen_log_ids
    &&& n.toast_message matches Some(m) && m@ == (if enabled {
        "Listener enabled"@
    } else {
        "Listener disabled"@
    })
    &&& n == (App {
        listener_url: n.listener_url,
        listener_enabled: n.listener_enabled,
        seen_log_ids: n.seen_log_ids,
        modal: ModalState::Closed,
        toast_message: n.toast_message,
        toast_timer: TOAST_TICKS,
        ..o
    })
}

/// `n` is `o` with the listener dialog replaced by `f`.
pub open spec fn listener_form_now(o: App, n: App, f: ListenerForm) -> bool {
    n == (App { listener_form: f, ..o })
}

/// Keys in the listener dialog: move between its controls, type the URL,
/// flip the switch, save or cancel.
pub open spec fn listener_key_effect(o: App, n: App, k: Key, a: AppAction) -> bool {
    let lf = o.listener_form;
    &&& a is Noop
    &&& if k.code == KeyCode::Esc {
        n == (App { modal: ModalState::Closed, ..o })
    } else if k.code == KeyCode::Tab || k.code == KeyCode::Down {
        listener_form_now(o, n, ListenerForm { active_field: listener_next_spec(lf.active_field), ..lf })
    } else if k.code == KeyCode::BackTab || k.code == KeyCode::Up {
        listener_form_now(o, n, ListenerForm { active_field: listener_prev_spec(lf.active_field), ..lf })
    } else if k.code == KeyCode::Enter {
        match lf.active_field {
            ListenerField::Cancel => n == (App { modal: ModalState::Closed, ..o }),
            ListenerField::Save => listener_saved(o, n),
            ListenerField::Enabled => listener_form_now(o, n, ListenerForm { enabled: !lf.enabled, ..lf }),
            ListenerField::Url => listener_form_now(
                o,
                n,
                ListenerForm { active_field: listener_next_spec(lf.active_field), ..lf },
            ),
        }
    } else if k.code == KeyCode::Char(' ') && lf.active_field == ListenerField::Enabled {
        listener_form_now(o, n, ListenerForm { enabled: !lf.enabled, ..lf })
    } else if k.code == KeyCode::Backspace && lf.active_field == ListenerField::Url {
        &&& n.listener_form.url@ == (if lf.url@.len() > 0 { lf.url@.drop_last() } else { lf.url@ })
        &&& listener_form_now(o, n, ListenerForm { url: n.listener_form.url, ..lf })
    } else if (k.code matches KeyCode::Char(c)) && lf.active_field == ListenerField::Url {
        &&& n.listener_form.url@ == lf.url@.push(k.code->0)
        &&& listener_form_now(o, n, ListenerForm { url: n.listener_form.url, ..lf })
    } else {
        n == o
    }
}

/// Names of the event types at the ticked positions of `flags`, in catalog
/// order: the subscriptions a submitted form asks for.
pub open spec fn ticked_names(types: Seq<EventTypeMeta>, flags: Seq<bool>) -> Seq<Seq<char>>
    decreases types.len(),
{
    if types.len() == 0 {
        Seq::empty()
    } else {
        let i = types.len() - 1;
        let rest = ticked_names(types.drop_last(), flags);
        if i < flags.len() && flags[i] {
            rest.push(types.last().name@)
        } else {
            rest
        }
    }
}

/// The endpoint name a submitted form asks for: `Untitled Webhook` when the
/// name field is blank.
pub open spec fn submitted_name(f: FormState) -> Seq<char> {
    if trimmed(f.name@).len() == 0 { "Untitled Webhook"@ } else { f.name@ }
}

/// Submitting the form: refused with a toast when the URL is blank or no
/// event type is ticked; otherwise a create or an update of the endpoint
/// being edited (cancelled, with a toast, when that endpoint is gone).
pub open spec fn submit_effect(o: App, n: App, a: AppAction) -> bool {
    let f = o.form;
    let names = ticked_names(o.event_types@, f.events@);
    if trimmed(f.url@).len() == 0 {
        toasted(o, n, "Endpoint URL is required"@) && a is Noop
    } else if names.len() == 0 {
        toasted(o, n, "Select at least one event type"@) && a is Noop
    } else {
        match o.modal {
            ModalState::CreateWebhook => {
                &&& n == o
                &&& a matches AppAction::Create(r) && r.name@ == submitted_name(f)
                    && r.endpoint_url@ == f.url@ && r.event_types.deep_view() == names
            },
            ModalState::EditWebhook(idx) => if idx < o.endpoints@.len() {
                &&& n == o
                &&& a matches AppAction::Update(id, r) && id@ == o.endpoints@[idx as int].id@
                    && r.name@ == submitted_name(f) && r.endpoint_url@ == f.url@ && r.status
                    == f.status && r.event_types.deep_view() == names
            } else {
                &&& n.toast_message matches Some(m) && m@ == "Endpoint was removed; edit cancelled"@
                &&& n == (App {
                    modal: ModalState::Closed,
                    toast_message: n.toast_message,
                    toast_timer: TOAST_TICKS,
                    ..o
                })
                &&& a is Noop
            },
            _ => ignored(o, n, a),
        }
    }
}

/// `n` is `o` with the form replaced by `f`.
pub open spec fn form_now(o: App, n: App, f: FormState) -> bool {
    n == (App { form: f, ..o })
}

/// Enter (or Space off the text fields) on the focused control of the form.
pub open spec fn activate_effect(o: App, n: App, a: AppAction) -> bool {
    let f = o.form;
    match f.active_field {
        FormField::Cancel => n == (App { modal: ModalState::Closed, ..o }) && a is Noop,
        FormField::Submit => submit_effect(o, n, a),
        FormField::CheckAll => {
            &&& n.form.events@ == Seq::new(f.events@.len(), |i: int| true)
            &&& form_now(o, n, FormState { events: n.form.events, ..f })
            &&& a is Noop
        },
        FormField::UncheckAll => {
            &&& n.form.events@ == Seq::new(f.events@.len(), |i: int| false)
            &&& form_now(o, n, FormState { events: n.form.events, ..f })
            &&& a is Noop
        },
        FormField::Event(i) => if i < f.events@.len() {
            &&& n.form.events@ == f.events@.update(i as int, !f.events@[i as int])
            &&& form_now(o, n, FormState { events: n.form.events, ..f })
            &&& a is Noop
        } else {
            ignored(o, n, a)
        },
        FormField::Status => {
            let s = match f.status {
                WebhookEndpointStatus::Active => WebhookEndpointStatus::Inactive,
                WebhookEndpointStatus::Inactive => WebhookEndpointStatus::Active,
            };
            form_now(o, n, FormState { status: s, ..f }) && a is Noop
        },
        _ => ignored(o, n, a),
    }
}

/// `n` is `o` with the text of the focused form field (URL or name)
/// changed to `text`.
pub open spec fn form_text_now(o: App, n: App, text: Seq<char>) -> bool {
    let f = o.form;
    match f.active_field {
        FormField::Url => n.form.url@ == text && form_now(o, n, FormState { url: n.form.url, ..f }),
        FormField::Name => n.form.name@ == text && form_now(o, n, FormState { name: n.form.name, ..f }),
        _ => false,
    }
}

/// Text of the focused form field, if it is a text field.
pub open spec fn focused_text(f: FormState) -> Option<Seq<char>> {
    match f.active_field {
        FormField::Url => Some(f.url@),
        FormField::Name => Some(f.name@),
        _ => None,
    }
}

/// Keys in the create/edit form. While a text field has focus, character
/// keys are typed into it, never taken as commands.
pub open spec fn form_key_effect(o: App, n: App, k: Key, a: AppAction) -> bool {
    let f = o.form;
    let rows = f.events@.len() as u16;
    let num = o.event_types@.len();
    if k.code == KeyCode::Esc {
        n == (App { modal: ModalState::Closed, ..o }) && a is Noop
    } else if k.code == KeyCode::Tab || k.code == KeyCode::Down {
        let to = form_next_spec(f.active_field, f.is_edit, num);
        &&& form_now(o, n, FormState { active_field: to, scroll: auto_scroll_spec(to, rows) as u16, ..f })
        &&& a is Noop
    } else if k.code == KeyCode::BackTab || k.code == KeyCode::Up {
        let to = form_prev_spec(f.active_field, f.is_edit, num);
        &&& form_now(o, n, FormState { active_field: to, scroll: auto_scroll_spec(to, rows) as u16, ..f })
        &&& a is Noop
    } else if k.code == KeyCode::Left || k.code == KeyCode::Right {
        let to = match f.active_field {
            FormField::Cancel => FormField::Submit,
            FormField::Submit => FormField::Cancel,
            other => other,
        };
        form_now(o, n, FormState { active_field: to, ..f }) && a is Noop
    } else if k.code == KeyCode::PageDown {
        let up = sat16(f.scroll + FORM_PAGE_LINES);
        let max = max_scroll_spec(rows);
        let to = if up < max { up } else { max };
        form_now(o, n, FormState { scroll: to as u16, ..f }) && a is Noop
    } else if k.code == KeyCode::PageUp {
        form_now(o, n, FormState { scroll: sat_sub16(f.scroll, FORM_PAGE_LINES), ..f }) && a is Noop
    } else if k.code == KeyCode::Enter {
        activate_effect(o, n, a)
    } else if k.code == KeyCode::Backspace {
        match focused_text(f) {
            Some(t) => form_text_now(o, n, if t.len() > 0 { t.drop_last() } else { t }) && a is Noop,
            None => ignored(o, n, a),
        }
    } else if k.code matches KeyCode::Char(c) {
        match focused_text(f) {
            Some(t) => form_text_now(o, n, t.push(k.code->0)) && a is Noop,
            None => if k.code == KeyCode::Char(' ') {
                activate_effect(o, n, a)
            } else {
                ignored(o, n, a)
            },
        }
    } else {
        ignored(o, n, a)
    }
}

/// Keys in the delete confirmation for the endpoint at `idx`.
pub open spec fn delete_key_effect(o: App, n: App, k: Key, idx: usize, a: AppAction) -> bool {
    if k.code == KeyCode::Esc || k.code == KeyCode::Char('n') {
        n == (App { modal: ModalState::Closed, ..o }) && a is Noop
    } else if (k.code == KeyCode::Enter || k.code == KeyCode::Char('y')) && idx < o.endpoints@.len() {
        &&& n == (App { modal: ModalState::Closed, ..o })
        &&& a matches AppAction::Delete(id) && id@ == o.endpoints@[idx as int].id@
    } else {
        ignored(o, n, a)
    }
}

/// Keys in the dialog that shows a new endpoint's secret.
pub open spec fn created_key_effect(o: App, n: App, k: Key, a: AppAction) -> bool {
    if k.code == KeyCode::Enter || k.code == KeyCode::Esc {
        n == (App { modal: ModalState::Closed, ..o }) && a is Noop
    } else {
        ignored(o, n, a)
    }
}

/// Keys in the delivery-detail dialog: scroll, or close it.
pub open spec fn details_key_effect(o: App, n: App, k: Key, a: AppAction) -> bool {
    let s = o.detail_scroll;
    &&& a is Noop
    &&& if k.code == KeyCode::Esc || k.code == KeyCode::Enter || k.code == KeyCode::Char('q') {
        n == (App { modal: ModalState::Closed, delivery_detail: None, ..o })
    } else if k.code == KeyCode::Down || k.code == KeyCode::Char('j') {
        n == (App { detail_scroll: sat16(s + DETAIL_LINE_STEP) as u16, ..o })
    } else if k.code == KeyCode::Up || k.code == KeyCode::Char('k') {
        n == (App { detail_scroll: sat_sub16(s, DETAIL_LINE_STEP), ..o })
    } else if k.code == KeyCode::PageDown {
        n == (App { detail_scroll: sat16(s + DETAIL_PAGE_STEP) as u16, ..o })
    } else if k.code == KeyCode::PageUp {
        n == (App { detail_scroll: sat_sub16(s, DETAIL_PAGE_STEP), ..o })
    } else {
        n == o
    }
}

/// What a key press does. Releases are ignored; Ctrl-C quits from
/// anywhere; an update announcement takes every key until Enter or Esc
/// dismisses it; otherwise the open dialog, or the tabs, handle the key.
pub open spec fn key_effect(o: App, n: App, k: Key, a: AppAction) -> bool {
    if !k.press {
        ignored(o, n, a)
    } else if k.code == KeyCode::Char('c') && k.ctrl {
        n == (App { running: false, ..o }) && a is Noop
    } else if o.update_notice is Some {
        if k.code == KeyCode::Enter || k.code == KeyCode::Esc {
            n == (App { update_notice: None, ..o }) && a is Noop
        } else {
            ignored(o, n, a)
        }
    } else {
        match o.modal {
            ModalState::Closed => main_key_effect(o, n, k, a),
            ModalState::CreateWebhook => form_key_effect(o, n, k, a),
            ModalState::EditWebhook(_) => form_key_effect(o, n, k, a),
            ModalState::DeleteWebhook(idx) => delete_key_effect(o, n, k, idx, a),
            ModalState::WebhookCreated(_) => created_key_effect(o, n, k, a),
            ModalState::DeliveryDetails(_) => details_key_effect(o, n, k, a),
            ModalState::ListenerConfig => listener_key_effect(o, n, k, a),
        }
    }
}


/// Whether the key press `k` needs the selected delivery-log row to exist:
/// the keys that act on it may only be pressed while it does.
pub open spec fn selection_ok(o: App, k: Key) -> bool {
    reads_selected_log(o, k) && filtered_logs(o).len() > 0 ==> o.selected_log < filtered_logs(o).len()
}

impl App {
    /// Handles one key press (see [`key_effect`]) and returns the work it
    /// asks for.
    pub fn handle_key(&mut self, key: Key) -> (act: AppAction)
        requires
            app_wf(*old(self)),
            selection_ok(*old(self), key),
        ensures
            app_wf(*final(self)),
            key_effect(*old(self), *final(self), key, act),
    {
        if !key.press {
            return AppAction::Noop;
        }
        if key.ctrl && key.code == KeyCode::Char('c') {
            self.running = false;
            return AppAction::Noop;
        }
        if self.update_notice.is_some() {
            if key.code == KeyCode::Enter || key.code == KeyCode::Esc {
                self.update_notice = None;
            }
            return AppAction::Noop;
        }
        match self.modal {
            ModalState::Closed => self.handle_main_key(key),
            ModalState::CreateWebhook => self.handle_form_key(key),
            ModalState::EditWebhook(_) => self.handle_form_key(key),
            ModalState::DeleteWebhook(idx) => self.handle_delete_key(key, idx),
            ModalState::WebhookCreated(_) => self.handle_created_key(key),
            ModalState::DeliveryDetails(_) => self.handle_details_key(key),
            ModalState::ListenerConfig => self.handle_listener_key(key),
        }
    }

    fn handle_main_key(&mut self, key: Key) -> (act: AppAction)
        requires
            app_wf(*old(self)),
            old(self).last_error is None && old(self).screen == Screen::DeliveryLogs && (key.code
                == KeyCode::Enter || key.code == KeyCode::Char('v') || key.code == KeyCode::Char('t')
                || key.code == KeyCode::Char('r')) && filtered_logs(*old(self)).len() > 0
                ==> old(self).selected_log < filtered_logs(*old(self)).len(),
        ensures
            app_wf(*final(self)),
            main_key_effect(*old(self), *final(self), key, act),
    {
        if self.last_error.is_some() {
            if key.code == KeyCode::Esc || key.code == KeyCode::Enter {
                self.clear_last_error();
            }
            return AppAction::Noop;
        }
        if key.code == KeyCode::Char('q') {
            self.running = false;
            return AppAction::Noop;
        }
        if key.code == KeyCode::Tab || key.code == KeyCode::BackTab {
            self.screen = match self.screen {
                Screen::Endpoints => Screen::DeliveryLogs,
                Screen::DeliveryLogs => Screen::Endpoints,
            };
            return AppAction::Noop;
        }
        match self.screen {
            Screen::Endpoints => self.handle_endpoints_key(key),
            Screen::DeliveryLogs => self.handle_logs_key(key),
        }
    }

    fn handle_endpoints_key(&mut self, key: Key) -> (act: AppAction)
        requires
            app_wf(*old(self)),
        ensures
            app_wf(*final(self)),
            endpoints_key_effect(*old(self), *final(self), key, act),
    {
        let n = self.endpoints.len();
        let sel = self.selected_endpoint;
        if (key.code == KeyCode::Up || key.code == KeyCode::Char('k')) && n > 0 && sel > 0 {
            self.selected_endpoint = sel - 1;
            AppAction::Noop
        } else if (key.code == KeyCode::Down || key.code == KeyCode::Char('j')) && n > 0 && sel + 1 < n {
            self.selected_endpoint = sel + 1;
            AppAction::Noop
        } else if key.code == KeyCode::Char('c') {
            self.form = FormState::new_create(self.event_types.len());
            self.modal = ModalState::CreateWebhook;
            AppAction::Noop
        } else if (key.code == KeyCode::Char('e') || key.code == KeyCode::Enter) && n > 0 {
            let form = FormState::new_edit(&self.endpoints[sel], &self.event_types);
            self.form = form;
            self.modal = ModalState::EditWebhook(sel);
            AppAction::Noop
        } else if key.code == KeyCode::Char('d') && n > 0 {
            self.modal = ModalState::DeleteWebhook(sel);
            AppAction::Noop
        } else if key.code == KeyCode::Char('p') && n > 0 {
            AppAction::PingEndpoint(self.endpoints[sel].id.clone())
        } else {
            AppAction::Noop
        }
    }

    fn handle_logs_key(&mut self, key: Key) -> (act: AppAction)
        requires
            app_wf(*old(self)),
            (key.code == KeyCode::Enter || key.code == KeyCode::Char('v') || key.code
                == KeyCode::Char('t') || key.code == KeyCode::Char('r')) && filtered_logs(
                *old(self),
            ).len() > 0 ==> old(self).selected_log < filtered_logs(*old(self)).len(),
        ensures
            app_wf(*final(self)),
            logs_key_effect(*old(self), *final(self), key, act),
    {
        let f = self.filtered_log_indices();
        let cnt = f.len();
        let sel = self.selected_log;
        proof {
            lemma_filtered_rows_are_log_positions(*self);
        }
        if (key.code == KeyCode::Up || key.code == KeyCode::Char('k')) && cnt > 0 && sel > 0 {
            self.selected_log = sel - 1;
            AppAction::Noop
        } else if (key.code == KeyCode::Down || key.code == KeyCode::Char('j')) && cnt > 0 && sel + 1
            < cnt {
            self.selected_log = sel + 1;
            AppAction::Noop
        } else if key.code == KeyCode::PageDown && cnt > 0 {
            let up = sel + PAGE_STEP;
            self.selected_log = if up < cnt - 1 { up } else { cnt - 1 };
            AppAction::Noop
        } else if key.code == KeyCode::PageUp && cnt > 0 {
            self.selected_log = if sel >= PAGE_STEP { sel - PAGE_STEP } else { 0 };
            AppAction::Noop
        } else if key.code == KeyCode::Home && cnt > 0 {
            self.selected_log = 0;
            AppAction::Noop
        } else if key.code == KeyCode::End && cnt > 0 {
            self.selected_log = cnt - 1;
            AppAction::Noop
        } else if (key.code == KeyCode::Enter || key.code == KeyCode::Char('v')) && cnt > 0 {
            let id = self.logs[f[sel]].id.clone();
            self.detail_scroll = 0;
            self.modal = ModalState::DeliveryDetails(id.clone());
            AppAction::OpenDetails(id)
        } else if key.code == KeyCode::Char('1') {
            self.filter_endpoint = (self.filter_endpoint + 1) % (self.endpoints.len() + 1);
            self.selected_log = 0;
            AppAction::Noop
        } else if key.code == KeyCode::Char('2') {
            self.filter_event = (self.filter_event + 1) % (self.event_types.len() + 1);
            self.selected_log = 0;
            AppAction::Noop
        } else if key.code == KeyCode::Char('3') {
            self.filter_status = (self.filter_status + 1) % 3;
            self.selected_log = 0;
            AppAction::Noop
        } else if key.code == KeyCode::Char('s') {
            self.sort_ascending = !self.sort_ascending;
            AppAction::Noop
        } else if key.code == KeyCode::Char('x') {
            self.filter_endpoint = 0;
            self.filter_event = 0;
            self.filter_status = 0;
            self.selected_log = 0;
            AppAction::Noop
        } else if key.code == KeyCode::Char('l') {
            let url = crate::text::copy_opt_string(&self.listener_url);
            self.listener_form = ListenerForm::from_app(url, self.listener_enabled);
            self.modal = ModalState::ListenerConfig;
            AppAction::Noop
        } else if key.code == KeyCode::Char('t') && cnt > 0 {
            self.trigger_forward(f[sel])
        } else if key.code == KeyCode::Char('r') && cnt > 0 {
            self.retry_delivery(f[sel])
        } else {
            AppAction::Noop
        }
    }

    fn trigger_forward(&mut self, pos: usize) -> (act: AppAction)
        requires
            app_wf(*old(self)),
            pos < old(self).logs@.len(),
        ensures
            app_wf(*final(self)),
            trigger_effect(
                *old(self),
                *final(self),
                old(self).logs@[pos as int].id@,
                old(self).logs@[pos as int].status,
                act,
            ),
    {
        let status = self.logs[pos].status;
        let id = self.logs[pos].id.clone();
        if status != WebhookDeliveryLogStatus::Success {
            self.show_toast(String::from_str("Trigger only works on successful deliveries"));
            return AppAction::Noop;
        }
        match &self.listener_url {
            None => {
                self.show_toast(String::from_str("No listener URL configured (press [l] to set one)"));
                AppAction::Noop
            },
            Some(u) => {
                let url = u.clone();
                let mut msg = String::from_str("Forwarding ");
                let p = short_id(id.as_str());
                msg.append(p.as_str());
                msg.append(" -> ");
                msg.append(url.as_str());
                self.show_toast(msg);
                AppAction::ForwardLog { log_id: id, url }
            },
        }
    }

    fn retry_delivery(&mut self, pos: usize) -> (act: AppAction)
        requires
            app_wf(*old(self)),
            pos < old(self).logs@.len(),
        ensures
            app_wf(*final(self)),
            retry_effect(
                *old(self),
                *final(self),
                old(self).logs@[pos as int].id@,
                old(self).logs@[pos as int].status,
                act,
            ),
    {
        if self.logs[pos].status != WebhookDeliveryLogStatus::Failure {
            self.show_toast(String::from_str("Retry only works on failed deliveries"));
            return AppAction::Noop;
        }
        AppAction::RetryDelivery(self.logs[pos].id.clone())
    }

    fn handle_listener_key(&mut self, key: Key) -> (act: AppAction)
        requires
            app_wf(*old(self)),
        ensures
            app_wf(*final(self)),
            listener_key_effect(*old(self), *final(self), key, act),
    {
        if key.code == KeyCode::Esc {
            self.modal = ModalState::Closed;
            return AppAction::Noop;
        }
        if key.code == KeyCode::Tab || key.code == KeyCode::Down {
            self.listener_form.next_field();
            return AppAction::Noop;
        }
        if key.code == KeyCode::BackTab || key.code == KeyCode::Up {
            self.listener_form.prev_field();
            return AppAction::Noop;
        }
        if key.code == KeyCode::Enter {
            match self.listener_form.active_field {
                ListenerField::Cancel => {
                    self.modal = ModalState::Closed;
                },
                ListenerField::Save => {
                    self.save_listener_config();
                },
                ListenerField::Enabled => {
                    self.listener_form.enabled = !self.listener_form.enabled;
                },
                ListenerField::Url => {
                    self.listener_form.next_field();
                },
            }
            return AppAction::Noop;
        }
        if key.code == KeyCode::Char(' ') && self.listener_form.active_field == ListenerField::Enabled {
            self.listener_form.enabled = !self.listener_form.enabled;
            return AppAction::Noop;
        }
        if key.code == KeyCode::Backspace && self.listener_form.active_field == ListenerField::Url {
            let _ = pop_char(&mut self.listener_form.url);
            return AppAction::Noop;
        }
        match key.code {
            KeyCode::Char(c) => {
                if self.listener_form.active_field == ListenerField::Url {
                    push_char(&mut self.listener_form.url, c);
                }
            },
            _ => {},
        }
        AppAction::Noop
    }

    fn handle_form_key(&mut self, key: Key) -> (act: AppAction)
        requires
            app_wf(*old(self)),
        ensures
            app_wf(*final(self)),
            form_key_effect(*old(self), *final(self), key, act),
    {
        let n = self.event_types.len();
        if key.code == KeyCode::Esc {
            self.modal = ModalState::Closed;
            return AppAction::Noop;
        }
        if key.code == KeyCode::Tab || key.code == KeyCode::Down {
            self.form.next_field(n);
            return AppAction::Noop;
        }
        if key.code == KeyCode::BackTab || key.code == KeyCode::Up {
            self.form.prev_field(n);
            return AppAction::Noop;
        }
        if key.code == KeyCode::Left || key.code == KeyCode::Right {
            self.form.active_field = match self.form.active_field {
                FormField::Cancel => FormField::Submit,
                FormField::Submit => FormField::Cancel,
                other => other,
            };
            return AppAction::Noop;
        }
        if key.code == KeyCode::PageDown {
            let max = self.form.max_scroll();
            let up = self.form.scroll.saturating_add(FORM_PAGE_LINES);
            self.form.scroll = if up < max { up } else { max };
            return AppAction::Noop;
        }
        if key.code == KeyCode::PageUp {
            self.form.scroll = self.form.scroll.saturating_sub(FORM_PAGE_LINES);
            return AppAction::Noop;
        }
        if key.code == KeyCode::Enter {
            return self.activate_form_field();
        }
        if key.code == KeyCode::Backspace {
            match self.form.active_field {
                FormField::Url => {
                    let _ = pop_char(&mut self.form.url);
                },
                FormField::Name => {
                    let _ = pop_char(&mut self.form.name);
                },
                _ => {},
            }
            return AppAction::Noop;
        }
        match key.code {
            KeyCode::Char(c) => match self.form.active_field {
                FormField::Url => {
                    push_char(&mut self.form.url, c);
                    AppAction::Noop
                },
                FormField::Name => {
                    push_char(&mut self.form.name, c);
                    AppAction::Noop
                },
                _ => if c == ' ' {
                    self.activate_form_field()
                } else {
                    AppAction::Noop
                },
            },
            _ => AppAction::Noop,
        }
    }

    fn activate_form_field(&mut self) -> (act: AppAction)
        requires
            app_wf(*old(self)),
        ensures
            app_wf(*final(self)),
            activate_effect(*old(self), *final(self), act),
    {
        match self.form.active_field {
            FormField::Cancel => {
                self.modal = ModalState::Closed;
                AppAction::Noop
            },
            FormField::Submit => self.submit_form(),
            FormField::CheckAll => {
                self.set_all_events(true);
                AppAction::Noop
            },
            FormField::UncheckAll => {
                self.set_all_events(false);
                AppAction::Noop
            },
            FormField::Event(i) => {
                if i < self.form.events.len() {
                    let v = self.form.events[i];
                    self.form.events.set(i, !v);
                }
                AppAction::Noop
            },
            FormField::Status => {
                self.form.status = match self.form.status {
                    WebhookEndpointStatus::Active => WebhookEndpointStatus::Inactive,
                    WebhookEndpointStatus::Inactive => WebhookEndpointStatus::Active,
                };
                AppAction::Noop
            },
            _ => AppAction::Noop,
        }
    }

    fn set_all_events(&mut self, v: bool)
        ensures
            final(self).form.events@ == Seq::new(old(self).form.events@.len(), |i: int| v),
            *final(self) == (App {
                form: FormState { events: final(self).form.events, ..old(self).form },
                ..*old(self)
            }),
    {
        let ghost o = *self;
        let len = self.form.events.len();
        let mut j: usize = 0;
        while j < len
            invariant
                j <= len,
                len == o.form.events@.len(),
                self.form.events@.len() == len,
                forall|k: int| 0 <= k < j ==> self.form.events@[k] == v,
                *self == (App { form: FormState { events: self.form.events, ..o.form }, ..o }),
            decreases len - j,
        {
            self.form.events.set(j, v);
            j = j + 1;
        }
        assert(self.form.events@ =~= Seq::new(len as nat, |i: int| v));
    }

    fn ticked_event_names(&self) -> (r: Vec<String>)
        ensures
            r.deep_view() == ticked_names(self.event_types@, self.form.events@),
    {
        let mut out: Vec<String> = Vec::new();
        let mut i: usize = 0;
        while i < self.event_types.len()
            invariant
                i <= self.event_types@.len(),
                out.deep_view() == ticked_names(self.event_types@.take(i as int), self.form.events@),
            decreases self.event_types@.len() - i,
        {
            let ghost prev = out.deep_view();
            assert(self.event_types@.take(i + 1).drop_last() =~= self.event_types@.take(i as int));
            if i < self.form.events.len() && self.form.events[i] {
                out.push(self.event_types[i].name.clone());
                assert(out.deep_view() =~= prev.push(self.event_types@[i as int].name@));
            }
            i = i + 1;
        }
        assert(self.event_types@.take(self.event_types@.len() as int) =~= self.event_types@);
        out
    }

    fn submit_form(&mut self) -> (act: AppAction)
        requires
            app_wf(*old(self)),
        ensures
            app_wf(*final(self)),
            submit_effect(*old(self), *final(self), act),
    {
        let selected = self.ticked_event_names();
        let url_t = trim_chars(self.form.url.as_str());
        if url_t.len() == 0 {
            self.show_toast(String::from_str("Endpoint URL is required"));
            return AppAction::Noop;
        }
        if selected.len() == 0 {
            self.show_toast(String::from_str("Select at least one event type"));
            return AppAction::Noop;
        }
        let name_t = trim_chars(self.form.name.as_str());
        let name = if name_t.len() == 0 {
            String::from_str("Untitled Webhook")
        } else {
            self.form.name.clone()
        };
        match self.modal {
            ModalState::CreateWebhook => AppAction::Create(
                CreateWebhookEndpointRequest {
                    name,
                    endpoint_url: self.form.url.clone(),
                    event_types: selected,
                },
            ),
            ModalState::EditWebhook(idx) => {
                if idx < self.endpoints.len() {
                    AppAction::Update(
                        self.endpoints[idx].id.clone(),
                        UpdateWebhookEndpointRequest {
                            name,
                            endpoint_url: self.form.url.clone(),
                            status: self.form.status,
                            event_types: selected,
                        },
                    )
                } else {
                    self.modal = ModalState::Closed;
                    self.show_toast(String::from_str("Endpoint was removed; edit cancelled"));
                    AppAction::Noop
                }
            },
            _ => AppAction::Noop,
        }
    }

    fn handle_delete_key(&mut self, key: Key, idx: usize) -> (act: AppAction)
        requires
            app_wf(*old(self)),
        ensures
            app_wf(*final(self)),
            delete_key_effect(*old(self), *final(self), key, idx, act),
    {
        if key.code == KeyCode::Esc || key.code == KeyCode::Char('n') {
            self.modal = ModalState::Closed;
            AppAction::Noop
        } else if (key.code == KeyCode::Enter || key.code == KeyCode::Char('y')) && idx
            < self.endpoints.len() {
            let id = self.endpoints[idx].id.clone();
            self.modal = ModalState::Closed;
            AppAction::Delete(id)
        } else {
            AppAction::Noop
        }
    }

    fn handle_created_key(&mut self, key: Key) -> (act: AppAction)
        requires
            app_wf(*old(self)),
        ensures
            app_wf(*final(self)),
            created_key_effect(*old(self), *final(self), key, act),
    {
        if key.code == KeyCode::Enter || key.code == KeyCode::Esc {
            self.modal = ModalState::Closed;
        }
        AppAction::Noop
    }

    fn handle_details_key(&mut self, key: Key) -> (act: AppAction)
        requires
            app_wf(*old(self)),
        ensures
            app_wf(*final(self)),
            details_key_effect(*old(self), *final(self), key, act),
    {
        if key.code == KeyCode::Esc || key.code == KeyCode::Enter || key.code == KeyCode::Char('q') {
            self.modal = ModalState::Closed;
            self.clear_delivery_detail();
        } else if key.code == KeyCode::Down || key.code == KeyCode::Char('j') {
            self.detail_scroll = self.detail_scroll.saturating_add(DETAIL_LINE_STEP);
        } else if key.code == KeyCode::Up || key.code == KeyCode::Char('k') {
            self.detail_scroll = self.detail_scroll.saturating_sub(DETAIL_LINE_STEP);
        } else if key.code == KeyCode::PageDown {
            self.detail_scroll = self.detail_scroll.saturating_add(DETAIL_PAGE_STEP);
        } else if key.code == KeyCode::PageUp {
            self.detail_scroll = self.detail_scroll.saturating_sub(DETAIL_PAGE_STEP);
        }
        AppAction::Noop
    }
}

} // verus!
