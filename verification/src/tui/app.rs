//! Dashboard state and how every key press changes it.

use vstd::prelude::*;
use crate::api::models::{
    CreateWebhookEndpointRequest, DeliveryLogDetailDto, UpdateWebhookEndpointRequest,
    WebhookDeliveryLogStatus, WebhookEndpointStatus,
};
use crate::domain::{DeliveryLog, Endpoint, EventTypeMeta};
use crate::poller::CadenceMode;
use crate::text::{trim_string, trimmed};
use crate::tui::keys::app_wf;
use vstd::string::StringExecFns;

verus! {

/// The two tabs of the dashboard.
#[derive(Clone, Copy, Debug, PartialEq, Eq, Structural)]
pub enum Screen {
    Endpoints,
    DeliveryLogs,
}

/// The modal dialog in front of the tabs, if any.
#[derive(Clone, Debug, PartialEq)]
pub enum ModalState {
    /// No dialog: the tabs have the keyboard.
    Closed,
    CreateWebhook,
    EditWebhook(usize),
    DeleteWebhook(usize),
    /// Shows the signing secret of a just-created endpoint.
    WebhookCreated(String),
    /// Details of the delivery log with this id.
    DeliveryDetails(String),
    /// Configuration of the local listener.
    ListenerConfig,
}

/// Focusable controls of the listener dialog.
#[derive(Clone, Copy, Debug, PartialEq, Eq, Structural)]
pub enum ListenerField {
    Url,
    Enabled,
    Cancel,
    Save,
}

/// Next control of the listener dialog (Tab / Down), cycling.
pub open spec fn listener_next_spec(f: ListenerField) -> ListenerField {
    match f {
        ListenerField::Url => ListenerField::Enabled,
        ListenerField::Enabled => ListenerField::Cancel,
        ListenerField::Cancel => ListenerField::Save,
        ListenerField::Save => ListenerField::Url,
    }
}

/// Previous control of the listener dialog (BackTab / Up), cycling.
pub open spec fn listener_prev_spec(f: ListenerField) -> ListenerField {
    match f {
        ListenerField::Url => ListenerField::Save,
        ListenerField::Enabled => ListenerField::Url,
        ListenerField::Cancel => ListenerField::Enabled,
        ListenerField::Save => ListenerField::Cancel,
    }
}

/// Editable copy of the listener settings while its dialog is open.
#[derive(Clone, Debug)]
pub struct ListenerForm {
    pub url: String,
    pub enabled: bool,
    pub active_field: ListenerField,
}

impl ListenerForm {
    /// A dialog showing the current settings, focused on the URL.
    pub fn from_app(url: Option<String>, enabled: bool) -> (f: Self)
        ensures
            f.url@ == crate::text::text_or(url, Seq::empty()),
            f.enabled == enabled,
            f.active_field == ListenerField::Url,
    {
        ListenerForm {
            url: match url {
                Some(u) => u,
                None => String::new(),
            },
            enabled,
            active_field: ListenerField::Url,
        }
    }

    /// Moves focus to the next control.
    pub fn next_field(&mut self)
        ensures
            final(self).active_field == listener_next_spec(old(self).active_field),
            final(self).url == old(self).url,
            final(self).enabled == old(self).enabled,
    {
        self.active_field = match self.active_field {
            ListenerField::Url => ListenerField::Enabled,
            ListenerField::Enabled => ListenerField::Cancel,
            ListenerField::Cancel => ListenerField::Save,
            ListenerField::Save => ListenerField::Url,
        };
    }

    /// Moves focus to the previous control.
    pub fn prev_field(&mut self)
        ensures
            final(self).active_field == listener_prev_spec(old(self).active_field),
            final(self).url == old(self).url,
            final(self).enabled == old(self).enabled,
    {
        self.active_field = match self.active_field {
            ListenerField::Url => ListenerField::Save,
            ListenerField::Enabled => ListenerField::Url,
            ListenerField::Cancel => ListenerField::Enabled,
            ListenerField::Save => ListenerField::Cancel,
        };
    }
}

/// Focusable controls of the create/edit form.
#[derive(Clone, Copy, Debug, PartialEq, Eq, Structural)]
pub enum FormField {
    Url,
    Name,
    Status,
    CheckAll,
    UncheckAll,
    Event(usize),
    Cancel,
    Submit,
}

/// Next control of the form for `num_events` event rows; `Status` only
/// exists in the edit form.
pub open spec fn form_next_spec(f: FormField, is_edit: bool, num_events: nat) -> FormField {
    match f {
        FormField::Url => FormField::Name,
        FormField::Name => if is_edit { FormField::Status } else { FormField::CheckAll },
        FormField::Status => FormField::CheckAll,
        FormField::CheckAll => FormField::UncheckAll,
        FormField::UncheckAll => if num_events > 0 { FormField::Event(0) } else { FormField::Cancel },
        FormField::Event(i) => if i + 1 < num_events {
            FormField::Event((i + 1) as usize)
        } else {
            FormField::Cancel
        },
        FormField::Cancel => FormField::Submit,
        FormField::Submit => FormField::Url,
    }
}

/// Previous control of the form for `num_events` event rows.
pub open spec fn form_prev_spec(f: FormField, is_edit: bool, num_events: nat) -> FormField {
    match f {
        FormField::Url => FormField::Submit,
        FormField::Name => FormField::Url,
        FormField::Status => FormField::Name,
        FormField::CheckAll => if is_edit { FormField::Status } else { FormField::Name },
        FormField::UncheckAll => FormField::CheckAll,
        FormField::Event(i) => if i == 0 {
            FormField::UncheckAll
        } else {
            FormField::Event((i - 1) as usize)
        },
        FormField::Cancel => if num_events > 0 {
            FormField::Event((num_events - 1) as usize)
        } else {
            FormField::UncheckAll
        },
        FormField::Submit => FormField::Cancel,
    }
}

/// A control that the form for `num_events` event rows actually has.
pub open spec fn form_field_exists(f: FormField, is_edit: bool, num_events: nat) -> bool {
    match f {
        FormField::Status => is_edit,
        FormField::Event(i) => i < num_events,
        _ => true,
    }
}

/// Lines of the form before the event list.
pub const PREAMBLE_LINES: u16 = 14;

/// Lines per event row (checkbox and description).
pub const LINES_PER_EVENT: u16 = 2;

/// Lines of group headers across the event list.
pub const GROUP_OVERHEAD_LINES: u16 = 14;

/// Lines after the event list (blank and buttons).
pub const FOOTER_LINES: u16 = 3;

/// Lines of context kept above the focused event.
pub const VISIBLE_OFFSET: u16 = 20;

/// `x` clamped to the `u16` range (saturating arithmetic).
pub open spec fn sat16(x: int) -> int {
    if x > u16::MAX { u16::MAX as int } else if x < 0 { 0 } else { x }
}

/// Estimated line count of a form with `rows` event rows (`rows` already
/// taken as a `u16`), every step saturating.
pub open spec fn total_lines_spec(rows: u16) -> int {
    sat16(sat16(sat16(PREAMBLE_LINES + sat16(rows * LINES_PER_EVENT)) + GROUP_OVERHEAD_LINES)
        + FOOTER_LINES)
}

/// Largest scroll offset: the total less 8 lines that stay visible.
pub open spec fn max_scroll_spec(rows: u16) -> int {
    sat16(total_lines_spec(rows) - 8)
}

/// Scroll offset that keeps `f` visible.
pub open spec fn auto_scroll_spec(f: FormField, rows: u16) -> int {
    let raw = match f {
        FormField::Event(i) => sat16(
            sat16(sat16((i as u16) * LINES_PER_EVENT) + PREAMBLE_LINES) - VISIBLE_OFFSET,
        ),
        FormField::Cancel => max_scroll_spec(rows),
        FormField::Submit => max_scroll_spec(rows),
        _ => 0,
    };
    if raw < max_scroll_spec(rows) { raw } else { max_scroll_spec(rows) }
}

fn sat_add16(a: u16, b: u16) -> (r: u16)
    ensures
        r == sat16(a + b),
{
    a.saturating_add(b)
}

fn sat_mul16(a: u16, b: u16) -> (r: u16)
    requires
        b == 2,
    ensures
        r == sat16(a * b),
{
    if a > 32767 { u16::MAX } else { a * b }
}

/// Editable endpoint settings while the create or edit form is open.
#[derive(Clone, Debug)]
pub struct FormState {
    pub url: String,
    pub name: String,
    /// One flag per event type of the catalog: subscribed or not.
    pub events: Vec<bool>,
    pub status: WebhookEndpointStatus,
    pub active_field: FormField,
    pub is_edit: bool,
    /// Scroll offset of the form's long event list.
    pub scroll: u16,
}

impl FormState {
    /// An empty create form with every one of `num_events` event types ticked.
    pub fn new_create(num_events: usize) -> (f: Self)
        ensures
            f.url@.len() == 0,
            f.name@.len() == 0,
            f.events@ == Seq::new(num_events as nat, |i: int| true),
            f.status == WebhookEndpointStatus::Active,
            f.active_field == FormField::Url,
            !f.is_edit,
            f.scroll == 0,
    {
        let events = vec![true; num_events];
        assert(events@ =~= Seq::new(num_events as nat, |i: int| true));
        FormState {
            url: String::new(),
            name: String::new(),
            events,
            status: WebhookEndpointStatus::Active,
            active_field: FormField::Url,
            is_edit: false,
            scroll: 0,
        }
    }

    /// An edit form showing `ep`; the event type at position `i` of the
    /// catalog is ticked when `ep` subscribes to it.
    pub fn new_edit(ep: &Endpoint, event_types: &Vec<EventTypeMeta>) -> (f: Self)
        ensures
            f.url@ == ep.endpoint_url@,
            f.name@ == ep.name@,
            f.events@.len() == event_types@.len(),
            forall|i: int|
                0 <= i < event_types@.len() ==> #[trigger] f.events@[i] == ep.event_types.deep_view().contains(
                    event_types@[i].name@,
                ),
            f.status == ep.status,
            f.active_field == FormField::Url,
            f.is_edit,
            f.scroll == 0,
    {
        let mut events: Vec<bool> = Vec::new();
        let mut i: usize = 0;
        while i < event_types.len()
            invariant
                i <= event_types@.len(),
                events@.len() == i,
                forall|j: int|
                    0 <= j < i ==> #[trigger] events@[j] == ep.event_types.deep_view().contains(
                        event_types@[j].name@,
                    ),
            decreases event_types@.len() - i,
        {
            let subscribed = contains_text(&ep.event_types, &event_types[i].name);
            events.push(subscribed);
            i = i + 1;
        }
        FormState {
            url: ep.endpoint_url.clone(),
            name: ep.name.clone(),
            events,
            status: ep.status,
            active_field: FormField::Url,
            is_edit: true,
            scroll: 0,
        }
    }

    /// Moves focus to the next control and scrolls it into view.
    pub fn next_field(&mut self, num_events: usize)
        requires
            old(self).active_field matches FormField::Event(i) ==> i < usize::MAX,
        ensures
            final(self).active_field == form_next_spec(
                old(self).active_field,
                old(self).is_edit,
                num_events as nat,
            ),
            final(self).scroll == auto_scroll_spec(
                final(self).active_field,
                old(self).events@.len() as u16,
            ),
            *final(self) == (FormState {
                active_field: final(self).active_field,
                scroll: final(self).scroll,
                ..*old(self)
            }),
    {
        self.active_field = match self.active_field {
            FormField::Url => FormField::Name,
            FormField::Name => if self.is_edit { FormField::Status } else { FormField::CheckAll },
            FormField::Status => FormField::CheckAll,
            FormField::CheckAll => FormField::UncheckAll,
            FormField::UncheckAll => if num_events > 0 { FormField::Event(0) } else { FormField::Cancel },
            FormField::Event(i) => if i + 1 < num_events {
                FormField::Event(i + 1)
            } else {
                FormField::Cancel
            },
            FormField::Cancel => FormField::Submit,
            FormField::Submit => FormField::Url,
        };
        self.auto_scroll();
    }

    /// Moves focus to the previous control and scrolls it into view.
    pub fn prev_field(&mut self, num_events: usize)
        ensures
            final(self).active_field == form_prev_spec(
                old(self).active_field,
                old(self).is_edit,
                num_events as nat,
            ),
            final(self).scroll == auto_scroll_spec(
                final(self).active_field,
                old(self).events@.len() as u16,
            ),
            *final(self) == (FormState {
                active_field: final(self).active_field,
                scroll: final(self).scroll,
                ..*old(self)
            }),
    {
        self.active_field = match self.active_field {
            FormField::Url => FormField::Submit,
            FormField::Name => FormField::Url,
            FormField::Status => FormField::Name,
            FormField::CheckAll => if self.is_edit { FormField::Status } else { FormField::Name },
            FormField::UncheckAll => FormField::CheckAll,
            FormField::Event(i) => if i == 0 { FormField::UncheckAll } else { FormField::Event(i - 1) },
            FormField::Cancel => if num_events > 0 {
                FormField::Event(num_events - 1)
            } else {
                FormField::UncheckAll
            },
            FormField::Submit => FormField::Cancel,
        };
        self.auto_scroll();
    }

    /// Best-effort estimate of the form's total line count.
    pub fn total_form_lines(&self) -> (n: u16)
        ensures
            n == total_lines_spec(self.events@.len() as u16),
    {
        let rows = self.events.len() as u16;
        let with_events = sat_add16(PREAMBLE_LINES, sat_mul16(rows, LINES_PER_EVENT));
        sat_add16(sat_add16(with_events, GROUP_OVERHEAD_LINES), FOOTER_LINES)
    }

    /// Largest scroll offset allowed: scrolling further would leave the
    /// viewport blank.
    pub fn max_scroll(&self) -> (n: u16)
        ensures
            n == max_scroll_spec(self.events@.len() as u16),
    {
        self.total_form_lines().saturating_sub(8)
    }

    /// Sets the scroll offset so the focused control stays visible.
    pub fn auto_scroll(&mut self)
        ensures
            final(self).scroll == auto_scroll_spec(
                old(self).active_field,
                old(self).events@.len() as u16,
            ),
            *final(self) == (FormState { scroll: final(self).scroll, ..*old(self) }),
    {
        let max = self.max_scroll();
        let raw: u16 = match self.active_field {
            FormField::Event(i) => {
                let line = sat_add16(sat_mul16(i as u16, LINES_PER_EVENT), PREAMBLE_LINES);
                line.saturating_sub(VISIBLE_OFFSET)
            },
            FormField::Cancel => max,
            FormField::Submit => max,
            _ => 0,
        };
        self.scroll = if raw < max { raw } else { max };
    }
}

/// Whether `list` holds a string equal to `s`.
pub fn contains_text(list: &Vec<String>, s: &String) -> (r: bool)
    ensures
        r == list.deep_view().contains(s@),
{
    let mut i: usize = 0;
    while i < list.len()
        invariant
            i <= list@.len(),
            forall|j: int| 0 <= j < i ==> #[trigger] list@[j]@ != s@,
        decreases list@.len() - i,
    {
        if list[i] == *s {
            assert(list.deep_view()[i as int] == s@);
            return true;
        }
        i = i + 1;
    }
    assert forall|j: int| 0 <= j < list.deep_view().len() implies list.deep_view()[j] != s@ by {
        assert(list.deep_view()[j] == list@[j]@);
    }
    false
}


/// Frames a toast stays on screen.
pub const TOAST_TICKS: u8 = 20;

/// Rows that PgUp / PgDn move in the delivery-log list.
pub const PAGE_STEP: usize = 10;

/// Lines that PgUp / PgDn scroll the create/edit form.
pub const FORM_PAGE_LINES: u16 = 15;

/// Lines that the arrow keys scroll the delivery-detail dialog.
pub const DETAIL_LINE_STEP: u16 = 2;

/// Lines that PgUp / PgDn scroll the delivery-detail dialog.
pub const DETAIL_PAGE_STEP: u16 = 10;

/// A key, as far as the dashboard tells keys apart.
#[derive(Clone, Copy, Debug, PartialEq, Eq, Structural)]
pub enum KeyCode {
    Char(char),
    Tab,
    BackTab,
    Enter,
    Esc,
    Up,
    Down,
    Left,
    Right,
    PageUp,
    PageDown,
    Home,
    End,
    Backspace,
    /// Any key the dashboard does not react to.
    Other,
}

/// A key event: the key, whether Control was held, and whether it is a
/// press (releases and repeats are ignored).
#[derive(Clone, Copy, Debug, PartialEq, Eq, Structural)]
pub struct Key {
    pub code: KeyCode,
    pub ctrl: bool,
    pub press: bool,
}

impl Key {
    /// A plain press of `code`.
    pub fn new(code: KeyCode) -> (k: Key)
        ensures
            k == (Key { code, ctrl: false, press: true }),
    {
        Key { code, ctrl: false, press: true }
    }

    /// A press of `code` with Control held.
    pub fn with_ctrl(code: KeyCode) -> (k: Key)
        ensures
            k == (Key { code, ctrl: true, press: true }),
    {
        Key { code, ctrl: true, press: true }
    }
}

/// Work the dashboard hands to its background worker after a key press.
#[derive(Debug)]
pub enum AppAction {
    /// Nothing to do.
    Noop,
    Create(CreateWebhookEndpointRequest),
    Update(String, UpdateWebhookEndpointRequest),
    Delete(String),
    /// Fetch the detail of the delivery log with this id.
    OpenDetails(String),
    /// Send this delivery log's headers and payload to the listener URL.
    ForwardLog { log_id: String, url: String },
    PingEndpoint(String),
    RetryDelivery(String),
}

/// What the background worker reports back after doing an [`AppAction`].
#[derive(Debug)]
pub enum ActionOutcome {
    Toast(String),
    Created { secret: String },
    /// An endpoint was saved: the form closes with a confirmation.
    Updated,
    Error(String),
    DeliveryDetail(Box<DeliveryLogDetailDto>),
}

/// The whole state of the dashboard.
#[derive(Debug)]
pub struct App {
    pub running: bool,
    pub screen: Screen,
    pub modal: ModalState,
    pub endpoints: Vec<Endpoint>,
    pub logs: Vec<DeliveryLog>,
    pub event_types: Vec<EventTypeMeta>,
    pub selected_endpoint: usize,
    /// Position in the filtered, sorted log list.
    pub selected_log: usize,
    pub form: FormState,
    pub detail_scroll: u16,
    /// An error shown in front of everything until dismissed.
    pub last_error: Option<String>,
    pub poll_warning: Option<String>,
    /// 0 shows every endpoint; `i + 1` only the endpoint at `i`.
    pub filter_endpoint: usize,
    /// 0 shows every event type; `i + 1` only the event type at `i`.
    pub filter_event: usize,
    /// 0 shows every status; 1 successes only; 2 failures only.
    pub filter_status: usize,
    pub sort_ascending: bool,
    pub toast_message: Option<String>,
    pub toast_timer: u8,
    pub delivery_detail: Option<DeliveryLogDetailDto>,
    /// Where new successful deliveries are forwarded, for this session only.
    pub listener_url: Option<String>,
    pub listener_enabled: bool,
    pub listener_form: ListenerForm,
    /// Ids of every delivery log seen so far, so none is forwarded twice;
    /// each is recorded once (part of `app_wf`).
    pub seen_log_ids: Vec<String>,
    /// A newer release, announced in a dialog until dismissed.
    pub update_notice: Option<String>,
}

/// The ids of `logs`, in order.
pub open spec fn log_ids(logs: Seq<DeliveryLog>) -> Seq<Seq<char>> {
    logs.map_values(|l: DeliveryLog| l.id@)
}

/// Ids of the logs in `logs` that are successful and not in `seen`, in
/// order: the deliveries a snapshot forwards.
pub open spec fn new_successes(logs: Seq<DeliveryLog>, seen: Seq<Seq<char>>) -> Seq<Seq<char>>
    decreases logs.len(),
{
    if logs.len() == 0 {
        Seq::empty()
    } else {
        let rest = new_successes(logs.drop_last(), seen);
        let l = logs.last();
        if l.status == WebhookDeliveryLogStatus::Success && !seen.contains(l.id@) {
            rest.push(l.id@)
        } else {
            rest
        }
    }
}

/// `acts` forwards each id of `ids`, in order, to `url`.
pub open spec fn forwards_to(acts: Seq<AppAction>, ids: Seq<Seq<char>>, url: Seq<char>) -> bool {
    &&& acts.len() == ids.len()
    &&& forall|i: int|
        0 <= i < acts.len() ==> (#[trigger] acts[i] matches AppAction::ForwardLog { log_id, url: u }
            && log_id@ == ids[i] && u@ == url)
}

/// A form for creating an endpoint, as [`FormState::new_create`] makes it.
pub open spec fn is_create_form(f: FormState, num_events: nat) -> bool {
    &&& f.url@.len() == 0
    &&& f.name@.len() == 0
    &&& f.events@ == Seq::new(num_events, |i: int| true)
    &&& f.status == WebhookEndpointStatus::Active
    &&& f.active_field == FormField::Url
    &&& !f.is_edit
    &&& f.scroll == 0
}

/// A form editing `ep` against the catalog `types`, as
/// [`FormState::new_edit`] makes it.
pub open spec fn is_edit_form(f: FormState, ep: Endpoint, types: Seq<EventTypeMeta>) -> bool {
    &&& f.url@ == ep.endpoint_url@
    &&& f.name@ == ep.name@
    &&& f.events@.len() == types.len()
    &&& forall|i: int|
        0 <= i < types.len() ==> #[trigger] f.events@[i] == ep.event_types.deep_view().contains(
            types[i].name@,
        )
    &&& f.status == ep.status
    &&& f.active_field == FormField::Url
    &&& f.is_edit
    &&& f.scroll == 0
}

/// Whether the delivery log `l` passes the filters of `a`.
pub open spec fn passes_filters(a: App, l: DeliveryLog) -> bool {
    &&& a.filter_endpoint > 0 ==> {
        let i = a.filter_endpoint - 1;
        i < a.endpoints@.len() && a.endpoints@[i].id@ == l.endpoint_id@
    }
    &&& a.filter_event > 0 ==> {
        let i = a.filter_event - 1;
        i < a.event_types@.len() && a.event_types@[i].name@ == l.event_type@
    }
    &&& a.filter_status == 1 ==> l.status == WebhookDeliveryLogStatus::Success
    &&& a.filter_status == 2 ==> l.status == WebhookDeliveryLogStatus::Failure
}

/// Positions of the first `n` logs of `a` that pass its filters, in order.
pub open spec fn matching_prefix(a: App, n: nat) -> Seq<usize>
    decreases n,
{
    if n == 0 {
        Seq::empty()
    } else {
        let rest = matching_prefix(a, (n - 1) as nat);
        if passes_filters(a, a.logs@[n - 1]) {
            rest.push((n - 1) as usize)
        } else {
            rest
        }
    }
}

/// The rows of the delivery-log list: positions in `a.logs` of the logs that
/// pass the filters, newest first, or oldest first when sorted ascending.
pub open spec fn filtered_logs(a: App) -> Seq<usize> {
    let m = matching_prefix(a, a.logs@.len());
    if a.sort_ascending { m.reverse() } else { m }
}

/// The cadence the poller should use while `m` is open: slower while a form
/// is being edited.
pub open spec fn cadence_for(m: ModalState) -> CadenceMode {
    match m {
        ModalState::CreateWebhook => CadenceMode::Backoff,
        ModalState::EditWebhook(_) => CadenceMode::Backoff,
        _ => CadenceMode::Active,
    }
}

proof fn lemma_matching_prefix_in_range(a: App, n: nat)
    requires
        n <= a.logs@.len(),
    ensures
        forall|j: int| 0 <= j < matching_prefix(a, n).len() ==> #[trigger] matching_prefix(a, n)[j] < n,
        matching_prefix(a, n).len() <= n,
    decreases n,
{
    if n > 0 {
        lemma_matching_prefix_in_range(a, (n - 1) as nat);
    }
}

/// Every row of the filtered list is a position in `a.logs`, and there are
/// no more rows than logs.
pub proof fn lemma_filtered_rows_are_log_positions(a: App)
    ensures
        forall|j: int|
            0 <= j < filtered_logs(a).len() ==> #[trigger] filtered_logs(a)[j] < a.logs@.len(),
        filtered_logs(a).len() <= a.logs@.len(),
{
    lemma_matching_prefix_in_range(a, a.logs@.len());
    let m = matching_prefix(a, a.logs@.len());
    if a.sort_ascending {
        assert forall|j: int| 0 <= j < filtered_logs(a).len() implies #[trigger] filtered_logs(a)[j]
            < a.logs@.len() by {
            assert(filtered_logs(a)[j] == m[m.len() - 1 - j]);
        }
    }
}

proof fn lemma_matching_prefix_passes(a: App, n: nat)
    requires
        n <= a.logs@.len(),
    ensures
        forall|j: int|
            0 <= j < matching_prefix(a, n).len() ==> #[trigger] matching_prefix(a, n)[j] < n && passes_filters(
                a,
                a.logs@[matching_prefix(a, n)[j] as int],
            ),
        forall|i: int| 0 <= i < n && passes_filters(a, #[trigger] a.logs@[i]) ==> matching_prefix(a, n).contains(
            i as usize,
        ),
    decreases n,
{
    if n > 0 {
        lemma_matching_prefix_passes(a, (n - 1) as nat);
        let rest = matching_prefix(a, (n - 1) as nat);
        let m = matching_prefix(a, n);
        assert forall|j: int| 0 <= j < m.len() implies #[trigger] m[j] < n && passes_filters(
            a,
            a.logs@[m[j] as int],
        ) by {
            if j < rest.len() {
                assert(m[j] == rest[j]);
            } else {
                assert(a.logs@.len() == a.logs.len());
                assert(m[j] == (n - 1) as usize);
            }
        }
        assert forall|i: int| 0 <= i < n && passes_filters(a, #[trigger] a.logs@[i]) implies m.contains(
            i as usize,
        ) by {
            if i < n - 1 {
                let w = choose|w: int| 0 <= w < rest.len() && rest[w] == i as usize;
                assert(m[w] == i as usize);
            } else {
                assert(m[m.len() - 1] == i as usize);
            }
        }
    }
}

/// The delivery-log list shows exactly the logs that pass the three
/// filters: with endpoint filter `k > 0`, only logs of the `k`-th endpoint
/// (`endpoints[k - 1]`); with event filter `k > 0`, only logs of the `k`-th
/// event type; with status filter 1 only successes, with 2 only failures.
/// Every listed row is a log position, and every log that meets all the
/// filters is listed.
pub proof fn lemma_filtered_rows_match_filters(a: App)
    ensures
        forall|j: int|
            #![trigger filtered_logs(a)[j]]
            0 <= j < filtered_logs(a).len() ==> {
                let r = filtered_logs(a)[j] as int;
                let l = a.logs@[r];
                &&& r < a.logs@.len()
                &&& a.filter_endpoint > 0 ==> (a.filter_endpoint - 1 < a.endpoints@.len()
                    && l.endpoint_id@ == a.endpoints@[a.filter_endpoint - 1].id@)
                &&& a.filter_event > 0 ==> (a.filter_event - 1 < a.event_types@.len()
                    && l.event_type@ == a.event_types@[a.filter_event - 1].name@)
                &&& a.filter_status == 1 ==> l.status == WebhookDeliveryLogStatus::Success
                &&& a.filter_status == 2 ==> l.status == WebhookDeliveryLogStatus::Failure
            },
        forall|i: int|
            #![trigger a.logs@[i]]
            0 <= i < a.logs@.len()
                && (a.filter_endpoint > 0 ==> (a.filter_endpoint - 1 < a.endpoints@.len()
                    && a.logs@[i].endpoint_id@ == a.endpoints@[a.filter_endpoint - 1].id@))
                && (a.filter_event > 0 ==> (a.filter_event - 1 < a.event_types@.len()
                    && a.logs@[i].event_type@ == a.event_types@[a.filter_event - 1].name@))
                && (a.filter_status == 1 ==> a.logs@[i].status == WebhookDeliveryLogStatus::Success)
                && (a.filter_status == 2 ==> a.logs@[i].status == WebhookDeliveryLogStatus::Failure)
                ==> filtered_logs(a).contains(i as usize),
{
    lemma_matching_prefix_passes(a, a.logs@.len());
    let m = matching_prefix(a, a.logs@.len());
    let f = filtered_logs(a);
    assert forall|j: int| #![trigger f[j]] 0 <= j < f.len() implies {
        let r = f[j] as int;
        let l = a.logs@[r];
        &&& r < a.logs@.len()
        &&& a.filter_endpoint > 0 ==> (a.filter_endpoint - 1 < a.endpoints@.len()
            && l.endpoint_id@ == a.endpoints@[a.filter_endpoint - 1].id@)
        &&& a.filter_event > 0 ==> (a.filter_event - 1 < a.event_types@.len()
            && l.event_type@ == a.event_types@[a.filter_event - 1].name@)
        &&& a.filter_status == 1 ==> l.status == WebhookDeliveryLogStatus::Success
        &&& a.filter_status == 2 ==> l.status == WebhookDeliveryLogStatus::Failure
    } by {
        if a.sort_ascending {
            assert(f[j] == m[m.len() - 1 - j]);
            assert(passes_filters(a, a.logs@[m[m.len() - 1 - j] as int]));
        } else {
            assert(passes_filters(a, a.logs@[m[j] as int]));
        }
    }
    assert forall|i: int|
        #![trigger a.logs@[i]]
        0 <= i < a.logs@.len()
            && (a.filter_endpoint > 0 ==> (a.filter_endpoint - 1 < a.endpoints@.len()
                && a.logs@[i].endpoint_id@ == a.endpoints@[a.filter_endpoint - 1].id@))
            && (a.filter_event > 0 ==> (a.filter_event - 1 < a.event_types@.len()
                && a.logs@[i].event_type@ == a.event_types@[a.filter_event - 1].name@))
            && (a.filter_status == 1 ==> a.logs@[i].status == WebhookDeliveryLogStatus::Success)
            && (a.filter_status == 2 ==> a.logs@[i].status == WebhookDeliveryLogStatus::Failure)
        implies f.contains(i as usize) by {
        assert(passes_filters(a, a.logs@[i]));
        assert(m.contains(i as usize));
        let w = choose|w: int| 0 <= w < m.len() && m[w] == i as usize;
        if a.sort_ascending {
            assert(f[m.len() - 1 - w] == i as usize);
        }
    }
}

impl App {
    /// A fresh dashboard on the endpoints tab, with `poll_warning` shown in
    /// its title bar.
    pub fn new(poll_warning: Option<String>) -> (a: Self)
        ensures
            a.running,
            a.screen == Screen::Endpoints,
            a.modal == ModalState::Closed,
            a.endpoints@.len() == 0,
            a.logs@.len() == 0,
            a.event_types@.len() == 0,
            a.selected_endpoint == 0,
            a.selected_log == 0,
            is_create_form(a.form, 0),
            a.detail_scroll == 0,
            a.last_error is None,
            a.poll_warning == poll_warning,
            a.filter_endpoint == 0,
            a.filter_event == 0,
            a.filter_status == 0,
            !a.sort_ascending,
            a.toast_message is None,
            a.toast_timer == 0,
            a.delivery_detail is None,
            a.listener_url is None,
            !a.listener_enabled,
            a.listener_form.url@.len() == 0,
            !a.listener_form.enabled,
            a.listener_form.active_field == ListenerField::Url,
            a.seen_log_ids@.len() == 0,
            a.update_notice is None,
            app_wf(a),
    {
        App {
            running: true,
            screen: Screen::Endpoints,
            modal: ModalState::Closed,
            endpoints: Vec::new(),
            logs: Vec::new(),
            event_types: Vec::new(),
            selected_endpoint: 0,
            selected_log: 0,
            form: FormState::new_create(0),
            detail_scroll: 0,
            last_error: None,
            poll_warning,
            filter_endpoint: 0,
            filter_event: 0,
            filter_status: 0,
            sort_ascending: false,
            toast_message: None,
            toast_timer: 0,
            delivery_detail: None,
            listener_url: None,
            listener_enabled: false,
            listener_form: ListenerForm::from_app(None, false),
            seen_log_ids: Vec::new(),
            update_notice: None,
        }
    }

    /// Shows `msg` in a toast for [`TOAST_TICKS`] frames.
    pub fn show_toast(&mut self, msg: String)
        ensures
            *final(self) == (App { toast_message: Some(msg), toast_timer: TOAST_TICKS, ..*old(self) }),
    {
        self.toast_message = Some(msg);
        self.toast_timer = TOAST_TICKS;
    }

    /// Counts one frame down on the toast, and hides it when its time is up.
    pub fn tick_toast(&mut self)
        ensures
            old(self).toast_timer == 0 ==> *final(self) == *old(self),
            old(self).toast_timer == 1 ==> *final(self) == (App {
                toast_timer: 0,
                toast_message: None,
                ..*old(self)
            }),
            old(self).toast_timer > 1 ==> *final(self) == (App {
                toast_timer: (old(self).toast_timer - 1) as u8,
                ..*old(self)
            }),
    {
        if self.toast_timer > 0 {
            self.toast_timer = self.toast_timer - 1;
            if self.toast_timer == 0 {
                self.toast_message = None;
            }
        }
    }

    /// Dismisses the error dialog.
    pub fn clear_last_error(&mut self)
        ensures
            *final(self) == (App { last_error: None, ..*old(self) }),
    {
        self.last_error = None;
    }

    /// Shows the fetched detail of a delivery log.
    pub fn set_delivery_detail(&mut self, d: DeliveryLogDetailDto)
        ensures
            *final(self) == (App { delivery_detail: Some(d), ..*old(self) }),
    {
        self.delivery_detail = Some(d);
    }

    /// Forgets the shown delivery-log detail.
    pub fn clear_delivery_detail(&mut self)
        ensures
            *final(self) == (App { delivery_detail: None, ..*old(self) }),
    {
        self.delivery_detail = None;
    }

    /// Announces a newer release (`Some(version)`), or nothing.
    pub fn set_update_notice(&mut self, notice: Option<String>)
        ensures
            *final(self) == (App { update_notice: notice, ..*old(self) }),
    {
        self.update_notice = notice;
    }

    /// The poller cadence that the open dialog calls for.
    pub fn cadence_mode(&self) -> (m: CadenceMode)
        ensures
            m == cadence_for(self.modal),
    {
        match self.modal {
            ModalState::CreateWebhook => CadenceMode::Backoff,
            ModalState::EditWebhook(_) => CadenceMode::Backoff,
            _ => CadenceMode::Active,
        }
    }

    /// Whether `id` is among the delivery logs seen so far.
    pub fn has_seen(&self, id: &str) -> (r: bool)
        ensures
            r == self.seen_log_ids.deep_view().contains(id@),
    {
        let mut i: usize = 0;
        while i < self.seen_log_ids.len()
            invariant
                i <= self.seen_log_ids@.len(),
                forall|j: int| 0 <= j < i ==> #[trigger] self.seen_log_ids@[j]@ != id@,
            decreases self.seen_log_ids@.len() - i,
        {
            if crate::text::str_equal(self.seen_log_ids[i].as_str(), id) {
                assert(self.seen_log_ids.deep_view()[i as int] == id@);
                return true;
            }
            i = i + 1;
        }
        assert forall|j: int| 0 <= j < self.seen_log_ids.deep_view().len() implies
            self.seen_log_ids.deep_view()[j] != id@ by {
            assert(self.seen_log_ids.deep_view()[j] == self.seen_log_ids@[j]@);
        }
        false
    }

    /// Records `id` as seen.
    pub fn mark_seen(&mut self, id: String)
        ensures
            forall|x: Seq<char>|
                final(self).seen_log_ids.deep_view().contains(x) <==> (old(self).seen_log_ids.deep_view().contains(x) || x == id@),
            old(self).seen_log_ids.deep_view().no_duplicates() ==> final(self).seen_log_ids.deep_view().no_duplicates(),
            *final(self) == (App { seen_log_ids: final(self).seen_log_ids, ..*old(self) }),
    {
        if !self.has_seen(id.as_str()) {
            let ghost before = self.seen_log_ids.deep_view();
            self.seen_log_ids.push(id);
            proof {
                let after = self.seen_log_ids.deep_view();
                assert(after =~= before.push(id@));
                if before.no_duplicates() {
                    assert forall|a: int, b: int| 0 <= a < after.len() && 0 <= b < after.len() && a != b implies after[a]
                        != after[b] by {
                        if a < before.len() && b < before.len() {
                            assert(after[a] == before[a] && after[b] == before[b]);
                        } else if a < before.len() {
                            assert(after[a] == before[a]);
                            assert(before.contains(before[a]));
                        } else {
                            assert(after[b] == before[b]);
                            assert(before.contains(before[b]));
                        }
                    }
                }
                assert forall|x: Seq<char>| after.contains(x) <==> (before.contains(x) || x == id@) by {
                    if after.contains(x) {
                        let j = choose|j: int| 0 <= j < after.len() && after[j] == x;
                        if j < before.len() {
                            assert(before[j] == x);
                        }
                    }
                    if before.contains(x) {
                        let j = choose|j: int| 0 <= j < before.len() && before[j] == x;
                        assert(after[j] == x);
                    }
                    if x == id@ {
                        assert(after[before.len() as int] == x);
                    }
                }
            }
        }
    }

    /// Positions in `logs` of the rows of the delivery-log list (see
    /// [`filtered_logs`]).
    pub fn filtered_log_indices(&self) -> (r: Vec<usize>)
        ensures
            r@ == filtered_logs(*self),
    {
        let mut out: Vec<usize> = Vec::new();
        let mut i: usize = 0;
        while i < self.logs.len()
            invariant
                i <= self.logs@.len(),
                out@ == matching_prefix(*self, i as nat),
            decreases self.logs@.len() - i,
        {
            if self.log_passes(&self.logs[i]) {
                out.push(i);
            }
            i = i + 1;
        }
        if self.sort_ascending {
            crate::text::reverse_vec(out)
        } else {
            out
        }
    }

    fn log_passes(&self, l: &DeliveryLog) -> (r: bool)
        ensures
            r == passes_filters(*self, *l),
    {
        if self.filter_endpoint > 0 {
            let i = self.filter_endpoint - 1;
            if i >= self.endpoints.len() || !crate::text::str_equal(
                self.endpoints[i].id.as_str(),
                l.endpoint_id.as_str(),
            ) {
                return false;
            }
        }
        if self.filter_event > 0 {
            let i = self.filter_event - 1;
            if i >= self.event_types.len() || !crate::text::str_equal(
                self.event_types[i].name.as_str(),
                l.event_type.as_str(),
            ) {
                return false;
            }
        }
        if self.filter_status == 1 {
            l.status == WebhookDeliveryLogStatus::Success
        } else if self.filter_status == 2 {
            l.status == WebhookDeliveryLogStatus::Failure
        } else {
            true
        }
    }
}


/// The clamped selection after the endpoint list is replaced by one of
/// length `n`: the last row when the old selection fell off the end.
pub open spec fn clamped_selection(sel: usize, n: nat) -> usize {
    if sel >= n && n > 0 { (n - 1) as usize } else { sel }
}

/// The event-type catalog after a snapshot: loaded once, from the first
/// snapshot that has one.
pub open spec fn kept_catalog(old: Vec<EventTypeMeta>, new: Vec<EventTypeMeta>) -> Vec<EventTypeMeta> {
    if old@.len() == 0 && new@.len() > 0 { new } else { old }
}

proof fn lemma_log_ids_take(logs: Seq<DeliveryLog>, i: int)
    requires
        0 <= i < logs.len(),
    ensures
        log_ids(logs.take(i + 1)) == log_ids(logs.take(i)).push(logs[i].id@),
{
    assert(log_ids(logs.take(i + 1)) =~= log_ids(logs.take(i)).push(logs[i].id@));
}

impl App {
    /// Takes in a fresh poll. While the listener is on and has a URL, every
    /// successful delivery log of the poll that was never seen before is
    /// returned as a forward to that URL, in poll order. Every log id of the
    /// poll is remembered as seen, whether the listener is on or not, so that
    /// switching it on later never replays the backlog.
    pub fn apply_snapshot(
        &mut self,
        endpoints: Vec<Endpoint>,
        logs: Vec<DeliveryLog>,
        event_types: Vec<EventTypeMeta>,
    ) -> (acts: Vec<AppAction>)
        requires
            app_wf(*old(self)),
            endpoints@.len() < usize::MAX,
            event_types@.len() < usize::MAX,
            logs@.len() < usize::MAX - PAGE_STEP,
        ensures
            app_wf(*final(self)),
            old(self).listener_enabled && old(self).listener_url is Some ==> forwards_to(
                acts@,
                new_successes(logs@, old(self).seen_log_ids.deep_view()),
                old(self).listener_url->0@,
            ),
            !(old(self).listener_enabled && old(self).listener_url is Some) ==> acts@.len() == 0,
            forall|x: Seq<char>|
                final(self).seen_log_ids.deep_view().contains(x) <==> (old(self).seen_log_ids.deep_view().contains(x) || log_ids(logs@).contains(x)),
            *final(self) == (App {
                endpoints,
                logs,
                event_types: kept_catalog(old(self).event_types, event_types),
                selected_endpoint: clamped_selection(old(self).selected_endpoint, endpoints@.len()),
                seen_log_ids: final(self).seen_log_ids,
                ..*old(self)
            }),
    {
        let mut forwards: Vec<AppAction> = Vec::new();
        let ghost seen0 = self.seen_log_ids.deep_view();
        if self.listener_enabled {
            match &self.listener_url {
                Some(url) => {
                    let mut i: usize = 0;
                    while i < logs.len()
                        invariant
                            i <= logs@.len(),
                            seen0 == self.seen_log_ids.deep_view(),
                            forwards_to(forwards@, new_successes(logs@.take(i as int), seen0), url@),
                        decreases logs@.len() - i,
                    {
                        assert(logs@.take(i + 1).drop_last() =~= logs@.take(i as int));
                        let l = &logs[i];
                        if l.status == WebhookDeliveryLogStatus::Success && !self.has_seen(
                            l.id.as_str(),
                        ) {
                            forwards.push(AppAction::ForwardLog { log_id: l.id.clone(), url: url.clone() });
                        }
                        i = i + 1;
                    }
                    assert(logs@.take(logs@.len() as int) =~= logs@);
                },
                None => {},
            }
        }
        let ghost before = *self;
        let mut i: usize = 0;
        while i < logs.len()
            invariant
                i <= logs@.len(),
                forall|x: Seq<char>|
                    #![trigger self.seen_log_ids.deep_view().contains(x)]
                    #![trigger seen0.contains(x)]
                    self.seen_log_ids.deep_view().contains(x) <==> (seen0.contains(x) || log_ids(
                        logs@.take(i as int),
                    ).contains(x)),
                self.seen_log_ids.deep_view().no_duplicates(),
                *self == (App { seen_log_ids: self.seen_log_ids, ..before }),
            decreases logs@.len() - i,
        {
            proof {
                lemma_log_ids_take(logs@, i as int);
            }
            let ghost prev = log_ids(logs@.take(i as int));
            let ghost s_prev = self.seen_log_ids.deep_view();
            self.mark_seen(logs[i].id.clone());
            proof {
                let id = logs@[i as int].id@;
                assert forall|x: Seq<char>|
                    self.seen_log_ids.deep_view().contains(x) <==> (seen0.contains(x) || log_ids(
                        logs@.take(i + 1),
                    ).contains(x)) by {
                    let p2 = prev.push(id);
                    assert(log_ids(logs@.take(i + 1)) == p2);
                    assert(self.seen_log_ids.deep_view().contains(x) <==> (s_prev.contains(x) || x == id));
                    assert(s_prev.contains(x) <==> (seen0.contains(x) || prev.contains(x)));
                    if p2.contains(x) {
                        let j = choose|j: int| 0 <= j < p2.len() && p2[j] == x;
                        if j < prev.len() {
                            assert(prev[j] == x);
                        }
                    }
                    if prev.contains(x) {
                        let j = choose|j: int| 0 <= j < prev.len() && prev[j] == x;
                        assert(p2[j] == x);
                    }
                    if x == id {
                        assert(p2[prev.len() as int] == x);
                    }
                }
            }
            proof {
                assert forall|x: Seq<char>| prev.push(logs@[i as int].id@).contains(x) <==> (
                prev.contains(x) || x == logs@[i as int].id@) by {
                    let p2 = prev.push(logs@[i as int].id@);
                    if p2.contains(x) {
                        let j = choose|j: int| 0 <= j < p2.len() && p2[j] == x;
                        if j < prev.len() {
                            assert(prev[j] == x);
                        }
                    }
                    if prev.contains(x) {
                        let j = choose|j: int| 0 <= j < prev.len() && prev[j] == x;
                        assert(p2[j] == x);
                    }
                    if x == logs@[i as int].id@ {
                        assert(p2[prev.len() as int] == x);
                    }
                }
            }
            i = i + 1;
        }
        assert(logs@.take(logs@.len() as int) =~= logs@);
        let n = endpoints.len();
        self.endpoints = endpoints;
        self.logs = logs;
        if self.event_types.len() == 0 && event_types.len() > 0 {
            self.event_types = event_types;
        }
        if self.selected_endpoint >= n && n > 0 {
            self.selected_endpoint = n - 1;
        }
        forwards
    }

    /// Saves the listener dialog: the trimmed URL (none when blank) and the
    /// on/off switch, which stays off without a URL. Switching the listener
    /// on marks every log on screen as seen, so only later arrivals are
    /// forwarded. Closes the dialog with a toast saying whether the listener
    /// is now on.
    pub fn save_listener_config(&mut self)
        ensures
            trimmed(old(self).listener_form.url@).len() == 0 ==> final(self).listener_url is None,
            trimmed(old(self).listener_form.url@).len() > 0 ==> (final(self).listener_url matches Some(
                u,
            ) && u@ == trimmed(old(self).listener_form.url@)),
            final(self).listener_enabled == (old(self).listener_form.enabled && trimmed(
                old(self).listener_form.url@,
            ).len() > 0),
            final(self).listener_enabled && !old(self).listener_enabled ==> final(self).seen_log_ids.deep_view().no_duplicates(),
            final(self).listener_enabled && !old(self).listener_enabled ==> forall|x: Seq<char>|
                #[trigger] final(self).seen_log_ids.deep_view().contains(x) <==> log_ids(old(self).logs@).contains(x),
            !(final(self).listener_enabled && !old(self).listener_enabled) ==> final(self).seen_log_ids
                == old(self).seen_log_ids,
            final(self).toast_message matches Some(m) && m@ == (if final(self).listener_enabled {
                "Listener enabled"@
            } else {
                "Listener disabled"@
            }),
            *final(self) == (App {
                listener_url: final(self).listener_url,
                listener_enabled: final(self).listener_enabled,
                seen_log_ids: final(self).seen_log_ids,
                modal: ModalState::Closed,
                toast_message: final(self).toast_message,
                toast_timer: TOAST_TICKS,
                ..*old(self)
            }),
    {
        let url = trim_string(self.listener_form.url.as_str());
        let blank = url.as_str().is_empty();
        let enabled = self.listener_form.enabled && !blank;
        self.listener_url = if blank { None } else { Some(url) };
        let was_enabled = self.listener_enabled;
        self.listener_enabled = enabled;
        if enabled && !was_enabled {
            self.seen_log_ids = Vec::new();
            let ghost before = *self;
            let mut i: usize = 0;
            proof {
                assert(self.seen_log_ids.deep_view() =~= Seq::<Seq<char>>::empty());
            }
            while i < self.logs.len()
                invariant
                    i <= self.logs@.len(),
                    self.logs == before.logs,
                    forall|x: Seq<char>|
                        #![trigger self.seen_log_ids.deep_view().contains(x)]
                        self.seen_log_ids.deep_view().contains(x) <==> log_ids(self.logs@.take(i as int)).contains(x),
                    self.seen_log_ids.deep_view().no_duplicates(),
                    *self == (App { seen_log_ids: self.seen_log_ids, ..before }),
                decreases self.logs@.len() - i,
            {
                proof {
                    lemma_log_ids_take(self.logs@, i as int);
                }
                let ghost prev = log_ids(self.logs@.take(i as int));
                let ghost s_prev = self.seen_log_ids.deep_view();
                let id = self.logs[i].id.clone();
                self.mark_seen(id);
                proof {
                    let idv = before.logs@[i as int].id@;
                    let p2 = prev.push(idv);
                    assert forall|x: Seq<char>|
                        self.seen_log_ids.deep_view().contains(x) <==> log_ids(before.logs@.take(i + 1)).contains(x) by {
                        assert(log_ids(before.logs@.take(i + 1)) == p2);
                        if p2.contains(x) {
                            let j = choose|j: int| 0 <= j < p2.len() && p2[j] == x;
                            if j < prev.len() {
                                assert(prev[j] == x);
                            }
                        }
                        if prev.contains(x) {
                            let j = choose|j: int| 0 <= j < prev.len() && prev[j] == x;
                            assert(p2[j] == x);
                        }
                        if x == idv {
                            assert(p2[prev.len() as int] == x);
                        }
                    }
                }
                i = i + 1;
            }
            assert(self.logs@.take(self.logs@.len() as int) =~= self.logs@);
        }
        self.modal = ModalState::Closed;
        let msg = if enabled {
            String::from_str("Listener enabled")
        } else {
            String::from_str("Listener disabled")
        };
        self.show_toast(msg);
    }
}


impl App {
    /// Takes in what the background worker reports: a toast, the secret of
    /// a new endpoint, a saved endpoint (the form closes), an error (shown
    /// until dismissed), or the detail of a delivery log.
    pub fn apply_outcome(&mut self, outcome: ActionOutcome)
        ensures
            match outcome {
                ActionOutcome::Toast(m) => *final(self) == (App {
                    toast_message: Some(m),
                    toast_timer: TOAST_TICKS,
                    ..*old(self)
                }),
                ActionOutcome::Created { secret } => *final(self) == (App {
                    modal: ModalState::WebhookCreated(secret),
                    ..*old(self)
                }),
                ActionOutcome::Updated => {
                    &&& final(self).toast_message matches Some(m) && m@ == "Webhook updated"@
                    &&& *final(self) == (App {
                        modal: ModalState::Closed,
                        toast_message: final(self).toast_message,
                        toast_timer: TOAST_TICKS,
                        ..*old(self)
                    })
                },
                ActionOutcome::Error(m) => *final(self) == (App { last_error: Some(m), ..*old(self) }),
                ActionOutcome::DeliveryDetail(d) => *final(self) == (App {
                    delivery_detail: Some(*d),
                    ..*old(self)
                }),
            },
    {
        match outcome {
            ActionOutcome::Toast(m) => self.show_toast(m),
            ActionOutcome::Created { secret } => {
                self.modal = ModalState::WebhookCreated(secret);
            },
            ActionOutcome::Updated => {
                self.modal = ModalState::Closed;
                self.show_toast(String::from_str("Webhook updated"));
            },
            ActionOutcome::Error(m) => {
                self.last_error = Some(m);
            },
            ActionOutcome::DeliveryDetail(d) => self.set_delivery_detail(*d),
        }
    }
}

} // verus!
