//! Properties of the dashboard that span key presses and polls.

use vstd::prelude::*;
use crate::domain::DeliveryLog;
use crate::api::models::WebhookDeliveryLogStatus;
use crate::tui::app::{
    auto_scroll_spec, form_field_exists, form_next_spec, form_prev_spec, listener_next_spec,
    listener_prev_spec, log_ids, max_scroll_spec, new_successes, App, AppAction, FormField, Key,
    KeyCode, ListenerField, ModalState, Screen, filtered_logs, PAGE_STEP,
};
use crate::tui::keys::{app_wf, key_effect, selection_ok};
use crate::tui::app::lemma_filtered_rows_are_log_positions;

verus! {

/// Ctrl-C quits the dashboard whatever is on screen.
pub proof fn lemma_ctrl_c_always_quits(o: App, n: App, k: Key, a: AppAction)
    requires
        key_effect(o, n, k, a),
        k.press,
        k.ctrl,
        k.code == KeyCode::Char('c'),
    ensures
        !n.running,
        a is Noop,
{
}

/// While an error is shown (and no update announcement is in front of
/// it), only Enter or Esc do anything, and they only dismiss the error.
pub proof fn lemma_error_dialog_takes_every_key(o: App, n: App, k: Key, a: AppAction)
    requires
        key_effect(o, n, k, a),
        k.press,
        !(k.ctrl && k.code == KeyCode::Char('c')),
        o.update_notice is None,
        o.modal == ModalState::Closed,
        o.last_error is Some,
    ensures
        a is Noop,
        k.code == KeyCode::Enter || k.code == KeyCode::Esc ==> n == (App { last_error: None, ..o }),
        !(k.code == KeyCode::Enter || k.code == KeyCode::Esc) ==> n == o,
{
}

/// A character typed while the form's URL or name field has focus goes into
/// that field and does nothing else: `q` does not quit, `c`, `d` or `e` open
/// nothing.
pub proof fn lemma_typing_in_form_is_literal(o: App, n: App, k: Key, c: char, a: AppAction)
    requires
        key_effect(o, n, k, a),
        k.press,
        !k.ctrl,
        k.code == KeyCode::Char(c),
        o.update_notice is None,
        o.modal == ModalState::CreateWebhook || o.modal matches ModalState::EditWebhook(_),
        o.form.active_field == FormField::Url || o.form.active_field == FormField::Name,
    ensures
        a is Noop,
        n.running == o.running,
        n.modal == o.modal,
        o.form.active_field == FormField::Url ==> n.form.url@ == o.form.url@.push(c),
        o.form.active_field == FormField::Name ==> n.form.name@ == o.form.name@.push(c),
{
}

/// Moving back after moving forward in the form returns to the same
/// control, for every control the form has.
pub proof fn lemma_form_prev_undoes_next(f: FormField, is_edit: bool, num_events: nat)
    requires
        form_field_exists(f, is_edit, num_events),
        num_events <= usize::MAX,
    ensures
        form_prev_spec(form_next_spec(f, is_edit, num_events), is_edit, num_events) == f,
        form_field_exists(form_next_spec(f, is_edit, num_events), is_edit, num_events),
{
}

/// Moving forward after moving back in the form returns to the same
/// control, for every control the form has.
pub proof fn lemma_form_next_undoes_prev(f: FormField, is_edit: bool, num_events: nat)
    requires
        form_field_exists(f, is_edit, num_events),
        num_events <= usize::MAX,
    ensures
        form_next_spec(form_prev_spec(f, is_edit, num_events), is_edit, num_events) == f,
        form_field_exists(form_prev_spec(f, is_edit, num_events), is_edit, num_events),
{
}

/// The listener dialog's four controls form a cycle: four steps forward
/// come back to the start, and a step back undoes a step forward.
pub proof fn lemma_listener_focus_cycles(f: ListenerField)
    ensures
        listener_next_spec(listener_next_spec(listener_next_spec(listener_next_spec(f)))) == f,
        listener_prev_spec(listener_next_spec(f)) == f,
        listener_next_spec(listener_prev_spec(f)) == f,
{
}

/// Scrolling to follow the focused control never goes past the end of the
/// form.
pub proof fn lemma_auto_scroll_within_form(f: FormField, rows: u16)
    ensures
        0 <= auto_scroll_spec(f, rows) <= max_scroll_spec(rows),
        max_scroll_spec(rows) <= u16::MAX,
{
}

/// A snapshot forwards nothing whose id was seen before, and only the ids
/// of successful deliveries of the snapshot.
pub proof fn lemma_forwards_are_unseen_successes(logs: Seq<DeliveryLog>, seen: Seq<Seq<char>>)
    ensures
        forall|j: int|
            0 <= j < new_successes(logs, seen).len() ==> !seen.contains(
                #[trigger] new_successes(logs, seen)[j],
            ) && log_ids(logs).contains(new_successes(logs, seen)[j]),
        forall|j: int|
            0 <= j < new_successes(logs, seen).len() ==> exists|w: int|
                0 <= w < logs.len() && logs[w].id@ == #[trigger] new_successes(logs, seen)[j]
                    && logs[w].status == WebhookDeliveryLogStatus::Success,
    decreases logs.len(),
{
    if logs.len() > 0 {
        lemma_forwards_are_unseen_successes(logs.drop_last(), seen);
        let init = logs.drop_last();
        let rest = new_successes(init, seen);
        let ns = new_successes(logs, seen);
        assert forall|j: int| 0 <= j < rest.len() implies log_ids(logs).contains(
            #[trigger] rest[j],
        ) by {
            let w = choose|w: int| 0 <= w < log_ids(logs.drop_last()).len() && log_ids(
                logs.drop_last(),
            )[w] == rest[j];
            assert(log_ids(logs)[w] == rest[j]);
        }
        assert(log_ids(logs)[logs.len() - 1] == logs.last().id@);
        assert forall|j: int| 0 <= j < ns.len() implies exists|w: int|
            0 <= w < logs.len() && logs[w].id@ == #[trigger] ns[j]
                && logs[w].status == WebhookDeliveryLogStatus::Success by {
            if j < rest.len() {
                assert(ns[j] == rest[j]);
                let w = choose|w: int|
                    0 <= w < init.len() && init[w].id@ == rest[j] && init[w].status
                        == WebhookDeliveryLogStatus::Success;
                assert(logs[w] == init[w]);
            } else {
                assert(logs[logs.len() - 1] == logs.last());
            }
        }
    }
}

/// When every log of a poll has been seen, the poll forwards nothing: the
/// same deliveries are never forwarded twice, and switching the listener on
/// does not replay what is already on screen.
pub proof fn lemma_seen_logs_are_not_forwarded(logs: Seq<DeliveryLog>, seen: Seq<Seq<char>>)
    requires
        forall|x: Seq<char>| #[trigger] log_ids(logs).contains(x) ==> seen.contains(x),
    ensures
        new_successes(logs, seen).len() == 0,
{
    lemma_forwards_are_unseen_successes(logs, seen);
    if new_successes(logs, seen).len() > 0 {
        let x = new_successes(logs, seen)[0];
        assert(log_ids(logs).contains(x));
    }
}

/// After a poll has been taken in, taking in the same logs again forwards
/// nothing.
pub proof fn lemma_repeated_poll_forwards_nothing(
    logs: Seq<DeliveryLog>,
    seen_before: Seq<Seq<char>>,
    seen_after: Seq<Seq<char>>,
)
    requires
        forall|x: Seq<char>|
            #[trigger] seen_after.contains(x) <==> (seen_before.contains(x) || log_ids(logs).contains(
                x,
            )),
    ensures
        new_successes(logs, seen_after).len() == 0,
{
    assert forall|x: Seq<char>| #[trigger] log_ids(logs).contains(x) implies seen_after.contains(x) by {}
    lemma_seen_logs_are_not_forwarded(logs, seen_after);
}


/// PgDn in the form never scrolls past the end of the form.
pub proof fn lemma_form_page_down_stays_in_form(o: App, n: App, a: AppAction)
    requires
        key_effect(o, n, Key { code: KeyCode::PageDown, ctrl: false, press: true }, a),
        o.update_notice is None,
        o.modal == ModalState::CreateWebhook || o.modal matches ModalState::EditWebhook(_),
    ensures
        n.form.scroll <= max_scroll_spec(o.form.events@.len() as u16),
        a is Noop,
{
}

/// Tab switches between the two tabs: twice returns to where it started.
pub proof fn lemma_tab_twice_returns(o: App, m: App, n: App, a1: AppAction, a2: AppAction)
    requires
        key_effect(o, m, Key { code: KeyCode::Tab, ctrl: false, press: true }, a1),
        key_effect(m, n, Key { code: KeyCode::Tab, ctrl: false, press: true }, a2),
        o.update_notice is None,
        o.modal == ModalState::Closed,
        o.last_error is None,
    ensures
        n == o,
{
}

/// On the delivery-log tab, PgDn, PgUp, Home and End move the selection by
/// ten rows (stopping at the last row), back by ten rows (stopping at the
/// first), to the first row and to the last row; they change nothing else,
/// ask for no action, and keep the selection on an existing row.
pub proof fn lemma_log_paging_keys(o: App, n: App, k: Key, a: AppAction)
    requires
        app_wf(o),
        key_effect(o, n, k, a),
        k.press,
        !(k.ctrl && k.code == KeyCode::Char('c')),
        o.update_notice is None,
        o.modal == ModalState::Closed,
        o.last_error is None,
        o.screen == Screen::DeliveryLogs,
        filtered_logs(o).len() > 0,
        o.selected_log < filtered_logs(o).len(),
        k.code == KeyCode::PageDown || k.code == KeyCode::PageUp || k.code == KeyCode::Home
            || k.code == KeyCode::End,
    ensures
        a is Noop,
        n == (App { selected_log: n.selected_log, ..o }),
        n.selected_log < filtered_logs(o).len(),
        k.code == KeyCode::PageDown ==> n.selected_log == (if o.selected_log + PAGE_STEP < filtered_logs(
            o,
        ).len() - 1 {
            o.selected_log + PAGE_STEP
        } else {
            filtered_logs(o).len() - 1
        }),
        k.code == KeyCode::PageUp ==> n.selected_log == (if o.selected_log >= PAGE_STEP {
            o.selected_log - PAGE_STEP
        } else {
            0
        }),
        k.code == KeyCode::Home ==> n.selected_log == 0,
        k.code == KeyCode::End ==> n.selected_log == filtered_logs(o).len() - 1,
{
    lemma_filtered_rows_are_log_positions(o);
}

/// Every endpoint update the dashboard sends is for the endpoint being
/// edited and carries what the edit form holds: its status (whatever the
/// endpoint's current status is) and its URL.
pub proof fn lemma_update_carries_form(o: App, n: App, k: Key, a: AppAction)
    requires
        key_effect(o, n, k, a),
        a is Update,
    ensures
        a matches AppAction::Update(id, r) && r.status == o.form.status && r.endpoint_url@ == o.form.url@
            && (o.modal matches ModalState::EditWebhook(idx) && idx < o.endpoints@.len() && id@
            == o.endpoints@[idx as int].id@),
{
}

/// The dashboard forwards a delivery by hand (`t`) only when the selected
/// row is a successful delivery: the forwarded id is that row's, and it goes
/// to the listener URL.
pub proof fn lemma_manual_forward_only_successful(o: App, n: App, k: Key, a: AppAction)
    requires
        app_wf(o),
        selection_ok(o, k),
        key_effect(o, n, k, a),
        a is ForwardLog,
    ensures
        o.screen == Screen::DeliveryLogs,
        k.code == KeyCode::Char('t'),
        o.selected_log < filtered_logs(o).len(),
        ({
            let l = o.logs@[filtered_logs(o)[o.selected_log as int] as int];
            &&& l.status == WebhookDeliveryLogStatus::Success
            &&& a matches AppAction::ForwardLog { log_id, url } && log_id@ == l.id@ && (o.listener_url
                matches Some(u) && url@ == u@)
        }),
{
}

} // verus!
