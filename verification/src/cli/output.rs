//! Text of the command line's table output, and the JSON error envelope.

use vstd::prelude::*;
use vstd::string::StringExecFns;
use crate::api::error::ApiError;
use crate::api::models::{
    delivery_status_name, endpoint_status_name, endpoint_status_text, DeliveryLogDetailDto,
    GetWebhookEndpointDto, PingResponseDto, WebhookDeliveryLogStatus,
};
use crate::domain::{DeliveryLog, EventTypeMeta};
use crate::text::{
    lemma_lex_order, lex_lt, pad_right, padded, str_equal, text_less,
    chars_of, decimal, i64_to_decimal, join_texts, joined, push_char, repeat_char, signed_decimal,
    string_from_chars, text_or, u64_to_decimal,
};
use crate::time::{displayed_text, formatted_text, display_utc, format_utc};

verus! {

/// What a failed command reports under `--output json`: a kind to branch
/// on (`api`, `transport`, `auth`, `decode`, or `client` for anything
/// else), the message, and for API errors the status and correlation id.
#[derive(Debug)]
pub struct ErrorJson {
    pub kind: &'static str,
    pub message: String,
    pub status: Option<u16>,
    pub correlation_id: Option<String>,
}

/// The envelope for an error whose chain holds `api`, if any; `message` is
/// the error's own text, used when no API error is found.
pub open spec fn error_envelope(e: ErrorJson, api: Option<ApiError>, message: Seq<char>) -> bool {
    match api {
        Some(ApiError::Api { status, correlation_id, message: m }) => {
            &&& e.kind@ == "api"@
            &&& e.message@ == m@
            &&& e.status == Some(status)
            &&& e.correlation_id.deep_view() == correlation_id.deep_view()
        },
        Some(ApiError::Transport(t)) => e.kind@ == "transport"@ && e.message@ == t@ && e.status is None
            && e.correlation_id is None,
        Some(ApiError::Auth(m)) => e.kind@ == "auth"@ && e.message@ == m@ && e.status is None
            && e.correlation_id is None,
        Some(ApiError::Decode(m)) => e.kind@ == "decode"@ && e.message@ == m@ && e.status is None
            && e.correlation_id is None,
        None => e.kind@ == "client"@ && e.message@ == message && e.status is None
            && e.correlation_id is None,
    }
}

impl ErrorJson {
    /// Builds the envelope from the API error found in a failed command's
    /// error chain (`api`), or from the error's text (`message`) when the
    /// chain holds none.
    pub fn from_anyhow(api: Option<&ApiError>, message: &str) -> (r: Self)
        ensures
            error_envelope(r, match api {
                Some(e) => Some(*e),
                None => None,
            }, message@),
    {
        match api {
            Some(ApiError::Api { status, correlation_id, message: m }) => ErrorJson {
                kind: "api",
                message: m.clone(),
                status: Some(*status),
                correlation_id: crate::text::copy_opt_string(correlation_id),
            },
            Some(ApiError::Transport(t)) => ErrorJson {
                kind: "transport",
                message: t.clone(),
                status: None,
                correlation_id: None,
            },
            Some(ApiError::Auth(m)) => ErrorJson {
                kind: "auth",
                message: m.clone(),
                status: None,
                correlation_id: None,
            },
            Some(ApiError::Decode(m)) => ErrorJson {
                kind: "decode",
                message: m.clone(),
                status: None,
                correlation_id: None,
            },
            None => ErrorJson {
                kind: "client",
                message: String::from_str(message),
                status: None,
                correlation_id: None,
            },
        }
    }
}

/// `s` fitted to a column of `width` characters: padded with spaces when
/// shorter, otherwise cut to `width - 1` characters and ended with `…`.
pub open spec fn fitted(s: Seq<char>, width: nat) -> Seq<char> {
    if s.len() <= width {
        s + Seq::new((width - s.len()) as nat, |i: int| ' ')
    } else if width >= 1 {
        s.take(width - 1).push('…')
    } else {
        Seq::empty()
    }
}

/// Fits `s` to a column of `width` characters (see [`fitted`]).
pub fn fit(s: &str, width: usize) -> (r: String)
    ensures
        r@ == fitted(s@, width as nat),
{
    let chars = chars_of(s);
    if chars.len() <= width {
        let mut out = string_from_chars(&chars);
        let pad = repeat_char(' ', width - chars.len());
        out.append(pad.as_str());
        out
    } else if width >= 1 {
        let mut out = String::new();
        let mut i: usize = 0;
        while i < width - 1
            invariant
                width >= 1,
                i <= width - 1,
                width - 1 < chars@.len(),
                out@ == chars@.take(i as int),
            decreases width - 1 - i,
        {
            push_char(&mut out, chars[i]);
            assert(chars@.take(i + 1) =~= chars@.take(i as int).push(chars@[i as int]));
            i = i + 1;
        }
        push_char(&mut out, '…');
        out
    } else {
        String::new()
    }
}


/// The text of an optional string, empty when absent.
pub open spec fn or_empty(o: Option<String>) -> Seq<char> {
    text_or(o, Seq::empty())
}

fn opt_text(o: &Option<String>) -> (r: String)
    ensures
        r@ == or_empty(*o),
{
    match o {
        Some(s) => s.clone(),
        None => String::new(),
    }
}

/// `"—"` for a missing HTTP status, its decimal form otherwise.
pub open spec fn http_text(code: Option<i32>) -> Seq<char> {
    match code {
        Some(c) => signed_decimal(c as int),
        None => "—"@,
    }
}

fn http_code_text(code: Option<i32>) -> (r: String)
    ensures
        r@ == http_text(code),
{
    match code {
        Some(c) => i64_to_decimal(c as i64),
        None => String::from_str("—"),
    }
}

/// A duration in milliseconds, as `<n>ms`.
pub open spec fn millis_text(ms: i32) -> Seq<char> {
    signed_decimal(ms as int) + "ms"@
}

fn millis(ms: i32) -> (r: String)
    ensures
        r@ == millis_text(ms),
{
    let mut s = i64_to_decimal(ms as i64);
    s.append("ms");
    s
}

/// The column header of the endpoint table.
pub open spec fn endpoints_header() -> Seq<char> {
    fitted("ID"@, 36) + "  "@ + fitted("NAME"@, 24) + "  "@ + fitted("URL"@, 50) + "  "@ + fitted(
        "STATUS"@,
        8,
    )
}

/// One row of the endpoint table.
pub open spec fn endpoint_row(ep: GetWebhookEndpointDto) -> Seq<char> {
    fitted(ep.id@, 36) + "  "@ + fitted(or_empty(ep.name), 24) + "  "@ + fitted(
        or_empty(ep.endpoint_url),
        50,
    ) + "  "@ + fitted(endpoint_status_name(ep.status), 8)
}

/// The lines of the endpoint table: header, rule, one row per endpoint.
pub open spec fn endpoints_table(eps: Seq<GetWebhookEndpointDto>) -> Seq<Seq<char>> {
    seq![endpoints_header(), Seq::new(124, |i: int| '-')] + eps.map_values(
        |e: GetWebhookEndpointDto| endpoint_row(e),
    )
}

fn columns4(a: String, b: String, c: String, d: String) -> (r: String)
    ensures
        r@ == a@ + "  "@ + b@ + "  "@ + c@ + "  "@ + d@,
{
    let mut s = a;
    s.append("  ");
    s.append(b.as_str());
    s.append("  ");
    s.append(c.as_str());
    s.append("  ");
    s.append(d.as_str());
    s
}

/// The endpoint table printed by `webhooks endpoints list`.
pub fn endpoints_table_lines(eps: &Vec<GetWebhookEndpointDto>) -> (r: Vec<String>)
    ensures
        r.deep_view() == endpoints_table(eps@),
{
    let mut out: Vec<String> = Vec::new();
    out.push(columns4(fit("ID", 36), fit("NAME", 24), fit("URL", 50), fit("STATUS", 8)));
    out.push(repeat_char('-', 124));
    let mut i: usize = 0;
    while i < eps.len()
        invariant
            i <= eps@.len(),
            out.deep_view() == endpoints_table(eps@.take(i as int)),
        decreases eps@.len() - i,
    {
        let ep = &eps[i];
        let name = opt_text(&ep.name);
        let url = opt_text(&ep.endpoint_url);
        let row = columns4(
            fit(ep.id.as_str(), 36),
            fit(name.as_str(), 24),
            fit(url.as_str(), 50),
            fit(endpoint_status_text(ep.status), 8),
        );
        let ghost prev = out.deep_view();
        out.push(row);
        assert(out.deep_view() =~= prev.push(endpoint_row(eps@[i as int])));
        assert(endpoints_table(eps@.take(i + 1)) =~= endpoints_table(eps@.take(i as int)).push(
            endpoint_row(eps@[i as int]),
        ));
        i = i + 1;
    }
    assert(eps@.take(eps@.len() as int) =~= eps@);
    out
}

/// `label` followed by `value`.
fn labeled(label: &str, value: &str) -> (r: String)
    ensures
        r@ == label@ + value@,
{
    let mut s = String::from_str(label);
    s.append(value);
    s
}

/// The lines describing one endpoint (`webhooks endpoints get` and the
/// result of an update).
pub open spec fn endpoint_detail(ep: GetWebhookEndpointDto) -> Seq<Seq<char>> {
    let base = seq![
        "ID:        "@ + ep.id@,
        "Name:      "@ + or_empty(ep.name),
        "URL:       "@ + or_empty(ep.endpoint_url),
        "Status:    "@ + endpoint_status_name(ep.status),
    ];
    let with_events = match ep.event_types {
        Some(v) => base.push("Events:    "@ + joined(v.deep_view(), ", "@)),
        None => base,
    };
    let with_created = match ep.created_on {
        Some(t) => with_events.push("Created:   "@ + displayed_text(t)),
        None => with_events,
    };
    match ep.modified_on {
        Some(t) => with_created.push("Modified:  "@ + displayed_text(t)),
        None => with_created,
    }
}

/// The lines describing one endpoint (see [`endpoint_detail`]).
pub fn endpoint_detail_lines(ep: &GetWebhookEndpointDto) -> (r: Vec<String>)
    ensures
        r.deep_view() == endpoint_detail(*ep),
{
    let mut out: Vec<String> = Vec::new();
    out.push(labeled("ID:        ", ep.id.as_str()));
    let name = opt_text(&ep.name);
    out.push(labeled("Name:      ", name.as_str()));
    let url = opt_text(&ep.endpoint_url);
    out.push(labeled("URL:       ", url.as_str()));
    out.push(labeled("Status:    ", endpoint_status_text(ep.status)));
    let ghost base = out.deep_view();
    match &ep.event_types {
        Some(v) => {
            let j = join_texts(v, ", ");
            out.push(labeled("Events:    ", j.as_str()));
        },
        None => {},
    }
    let ghost with_events = out.deep_view();
    match ep.created_on {
        Some(t) => {
            let d = display_utc(t);
            out.push(labeled("Created:   ", d.as_str()));
        },
        None => {},
    }
    match ep.modified_on {
        Some(t) => {
            let d = display_utc(t);
            out.push(labeled("Modified:  ", d.as_str()));
        },
        None => {},
    }
    proof {
        assert(base =~= seq![
            "ID:        "@ + ep.id@,
            "Name:      "@ + or_empty(ep.name),
            "URL:       "@ + or_empty(ep.endpoint_url),
            "Status:    "@ + endpoint_status_name(ep.status),
        ]);
    }
    assert(out.deep_view() =~= endpoint_detail(*ep));
    out
}

/// How a delivery status reads in tables.
pub open spec fn status_label(s: WebhookDeliveryLogStatus) -> Seq<char> {
    match s {
        WebhookDeliveryLogStatus::Success => "Success"@,
        WebhookDeliveryLogStatus::Failure => "Failed"@,
        WebhookDeliveryLogStatus::Pending => "Pending"@,
    }
}

/// `"Success"`, `"Failed"` or `"Pending"`.
pub fn status_label_text(s: WebhookDeliveryLogStatus) -> (r: &'static str)
    ensures
        r@ == status_label(s),
{
    match s {
        WebhookDeliveryLogStatus::Success => "Success",
        WebhookDeliveryLogStatus::Failure => "Failed",
        WebhookDeliveryLogStatus::Pending => "Pending",
    }
}

/// Timestamp pattern of the delivery table.
pub const LOG_TIME_PATTERN: &'static str = "%Y-%m-%d %H:%M:%S";

/// The column header of the delivery table.
pub open spec fn logs_header() -> Seq<char> {
    fitted("TIMESTAMP"@, 19) + "  "@ + fitted("EVENT TYPE"@, 30) + "  "@ + fitted("STATUS"@, 8)
        + "  "@ + fitted("HTTP"@, 5) + "  "@ + fitted("DUR"@, 8) + "  "@ + fitted("ID"@, 36)
}

/// One row of the delivery table.
pub open spec fn log_row(l: DeliveryLog) -> Seq<char> {
    fitted(formatted_text(l.created_on, LOG_TIME_PATTERN@), 19) + "  "@
        + fitted(l.event_type@, 30) + "  "@ + fitted(status_label(l.status), 8) + "  "@ + fitted(
        http_text(l.response_status_code),
        5,
    ) + "  "@ + fitted(millis_text(l.duration_ms), 8) + "  "@ + fitted(l.id@, 36)
}

/// The lines of the delivery table: header, rule, one row per log, and
/// when the API reported a total, a blank line and `<shown> of <total> total`.
pub open spec fn logs_table(logs: Seq<DeliveryLog>, total: Option<i32>) -> Seq<Seq<char>> {
    let rows = seq![logs_header(), Seq::new(116, |i: int| '-')] + logs.map_values(
        |l: DeliveryLog| log_row(l),
    );
    match total {
        Some(t) => rows + seq![Seq::empty(), decimal(logs.len()) + " of "@ + signed_decimal(t as int) + " total"@],
        None => rows,
    }
}

fn columns2(a: String, b: String) -> (r: String)
    ensures
        r@ == a@ + "  "@ + b@,
{
    let mut s = a;
    s.append("  ");
    s.append(b.as_str());
    s
}

fn log_row_text(l: &DeliveryLog) -> (r: String)
    ensures
        r@ == log_row(*l),
{
    let when = format_utc(l.created_on, LOG_TIME_PATTERN);
    let http = http_code_text(l.response_status_code);
    let dur = millis(l.duration_ms);
    let a = columns2(fit(when.as_str(), 19), fit(l.event_type.as_str(), 30));
    let b = columns2(a, fit(status_label_text(l.status), 8));
    let c = columns2(b, fit(http.as_str(), 5));
    let d = columns2(c, fit(dur.as_str(), 8));
    columns2(d, fit(l.id.as_str(), 36))
}

/// The delivery table printed by `webhooks deliveries list` (see
/// [`logs_table`]).
pub fn delivery_logs_table_lines(logs: &Vec<DeliveryLog>, total: Option<i32>) -> (r: Vec<String>)
    ensures
        r.deep_view() == logs_table(logs@, total),
{
    let mut out: Vec<String> = Vec::new();
    let h1 = columns2(fit("TIMESTAMP", 19), fit("EVENT TYPE", 30));
    let h2 = columns2(h1, fit("STATUS", 8));
    let h3 = columns2(h2, fit("HTTP", 5));
    let h4 = columns2(h3, fit("DUR", 8));
    out.push(columns2(h4, fit("ID", 36)));
    out.push(repeat_char('-', 116));
    let mut i: usize = 0;
    while i < logs.len()
        invariant
            i <= logs@.len(),
            out.deep_view() == logs_table(logs@.take(i as int), None),
        decreases logs@.len() - i,
    {
        let row = log_row_text(&logs[i]);
        let ghost prev = out.deep_view();
        out.push(row);
        assert(out.deep_view() =~= prev.push(log_row(logs@[i as int])));
        assert(logs_table(logs@.take(i + 1), None) =~= logs_table(logs@.take(i as int), None).push(
            log_row(logs@[i as int]),
        ));
        i = i + 1;
    }
    assert(logs@.take(logs@.len() as int) =~= logs@);
    match total {
        Some(t) => {
            let ghost rows = out.deep_view();
            out.push(String::new());
            let mut s = u64_to_decimal(logs.len() as u64);
            s.append(" of ");
            let tt = i64_to_decimal(t as i64);
            s.append(tt.as_str());
            s.append(" total");
            out.push(s);
            assert(out.deep_view() =~= rows + seq![
                Seq::<char>::empty(),
                decimal(logs@.len()) + " of "@ + signed_decimal(t as int) + " total"@,
            ]);
        },
        None => {},
    }
    out
}

/// The lines printed by `webhooks endpoints ping`.
pub open spec fn ping_report(p: PingResponseDto) -> Seq<Seq<char>> {
    let first = seq!["Success:   "@ + (if p.success { "true"@ } else { "false"@ })];
    let with_status = match p.status_code {
        Some(c) => first.push("Status:    "@ + signed_decimal(c as int)),
        None => first,
    };
    let with_duration = with_status.push("Duration:  "@ + millis_text(p.duration_ms));
    match p.error_message {
        Some(e) => with_duration.push("Error:     "@ + e@),
        None => with_duration,
    }
}

/// The lines printed by `webhooks endpoints ping` (see [`ping_report`]).
pub fn ping_lines(p: &PingResponseDto) -> (r: Vec<String>)
    ensures
        r.deep_view() == ping_report(*p),
{
    let mut out: Vec<String> = Vec::new();
    out.push(labeled("Success:   ", if p.success { "true" } else { "false" }));
    match p.status_code {
        Some(c) => {
            let t = i64_to_decimal(c as i64);
            out.push(labeled("Status:    ", t.as_str()));
        },
        None => {},
    }
    let d = millis(p.duration_ms);
    out.push(labeled("Duration:  ", d.as_str()));
    match &p.error_message {
        Some(e) => {
            out.push(labeled("Error:     ", e.as_str()));
        },
        None => {},
    }
    assert(out.deep_view() =~= ping_report(*p));
    out
}


/// A header of a recorded request: its name and value (absent values are
/// printed empty).
pub type Header = (String, Option<String>);

/// `h` lists its headers in order of name.
pub open spec fn headers_sorted(h: Seq<(Seq<char>, Option<Seq<char>>)>) -> bool {
    forall|i: int, j: int| 0 <= i < j < h.len() ==> !lex_lt(#[trigger] h[j].0, #[trigger] h[i].0)
}

/// The headers of `v` sorted by name: the same headers, in order of name.
pub fn sort_headers(v: &Vec<Header>) -> (r: Vec<Header>)
    ensures
        headers_sorted(r.deep_view()),
        r.deep_view().to_multiset() == v.deep_view().to_multiset(),
{
    let mut out: Vec<Header> = Vec::new();
    let mut i: usize = 0;
    assert(v.deep_view().take(0) =~= out.deep_view());
    while i < v.len()
        invariant
            i <= v@.len(),
            headers_sorted(out.deep_view()),
            out.deep_view().to_multiset() == v.deep_view().take(i as int).to_multiset(),
        decreases v@.len() - i,
    {
        let key = &v[i].0;
        let mut k: usize = 0;
        while k < out.len() && !text_less(key.as_str(), out[k].0.as_str())
            invariant
                k <= out@.len(),
                forall|j: int| 0 <= j < k ==> !lex_lt(key@, #[trigger] out.deep_view()[j].0),
            decreases out@.len() - k,
        {
            k = k + 1;
        }
        let ghost before = out.deep_view();
        let item: Header = (v[i].0.clone(), crate::text::copy_opt_string(&v[i].1));
        let ghost x = (item.0@, item.1.deep_view());
        assert(x == v.deep_view()[i as int]);
        out.insert(k, item);
        proof {
            assert(out.deep_view() =~= before.insert(k as int, x));
            assert(v.deep_view().take(i + 1) =~= v.deep_view().take(i as int).push(x));
            vstd::seq_lib::to_multiset_insert(before, k as int, x);
            vstd::seq_lib::to_multiset_build(v.deep_view().take(i as int), x);
            assert forall|a: int, b: int| 0 <= a < b < out.deep_view().len() implies !lex_lt(
                #[trigger] out.deep_view()[b].0,
                #[trigger] out.deep_view()[a].0,
            ) by {
                let o = out.deep_view();
                if b < k {
                } else if a > k {
                } else if a == k {
                    // x before an element that did not sort before it
                    if k < before.len() {
                        lemma_lex_order(x.0, before[k as int].0, o[b].0);
                        lemma_lex_order(before[k as int].0, o[b].0, x.0);
                        if b > k + 1 {
                            lemma_lex_order(o[b].0, before[k as int].0, x.0);
                        }
                    }
                } else {
                    // an element before x that x did not sort before
                    lemma_lex_order(x.0, o[a].0, o[a].0);
                }
            }
        }
        i = i + 1;
    }
    assert(v.deep_view().take(v@.len() as int) =~= v.deep_view());
    out
}

/// How a recorded header is printed.
pub open spec fn header_text(h: (Seq<char>, Option<Seq<char>>)) -> Seq<char> {
    "  "@ + h.0 + ": "@ + match h.1 {
        Some(v) => v,
        None => Seq::empty(),
    }
}

/// The lines describing one delivery attempt, its request (with the
/// headers in the order `headers`) and the response.
pub open spec fn delivery_detail(
    log: DeliveryLogDetailDto,
    headers: Seq<(Seq<char>, Option<Seq<char>>)>,
) -> Seq<Seq<char>> {
    let head = seq![
        "ID:        "@ + log.id@,
        "Endpoint:  "@ + or_empty(log.webhook_name) + " ("@ + log.webhook_endpoint_id@ + ")"@,
        "Event:     "@ + or_empty(log.event_type) + " (id="@ + log.event_id@ + ")"@,
        "Status:    "@ + delivery_status_name(log.status) + "  HTTP="@ + http_text(
            log.response_status_code,
        ) + "  Duration="@ + millis_text(log.duration_ms) + "  Attempt="@ + signed_decimal(
            log.attempt_number as int,
        ),
        "Created:   "@ + displayed_text(log.created_on),
    ];
    let with_error = match log.error_message {
        Some(e) => head.push("Error:     "@ + e@),
        None => head,
    };
    let request = with_error + seq![Seq::empty(), "--- Request headers ---"@] + headers.map_values(
        |h: (Seq<char>, Option<Seq<char>>)| header_text(h),
    );
    let with_body = match log.request_body {
        Some(b) => request + seq![Seq::empty(), "--- Request body ---"@, b@],
        None => request,
    };
    let response = with_body + seq![Seq::empty(), "--- Response ---"@, match log.response_status_code {
        Some(c) => "HTTP "@ + signed_decimal(c as int),
        None => "(no response received)"@,
    }];
    match log.response_body {
        Some(b) => response.push(b@),
        None => response,
    }
}

/// The headers recorded with a delivery, none when absent.
pub open spec fn recorded_headers(log: DeliveryLogDetailDto) -> Seq<(Seq<char>, Option<Seq<char>>)> {
    match log.request_headers {
        Some(h) => h.deep_view(),
        None => Seq::empty(),
    }
}

fn header_line(h: &Header) -> (r: String)
    ensures
        r@ == header_text((h.0@, h.1.deep_view())),
{
    let mut s = String::from_str("  ");
    s.append(h.0.as_str());
    s.append(": ");
    match &h.1 {
        Some(v) => {
            s.append(v.as_str());
        },
        None => {},
    }
    s
}

/// The lines printed by `webhooks deliveries get`: the attempt, its
/// request headers sorted by name, the request body and the response.
pub fn delivery_detail_lines(log: &DeliveryLogDetailDto) -> (r: Vec<String>)
    ensures
        exists|h: Seq<(Seq<char>, Option<Seq<char>>)>|
            headers_sorted(h) && h.to_multiset() == recorded_headers(*log).to_multiset()
                && r.deep_view() == delivery_detail(*log, h),
{
    let mut out: Vec<String> = Vec::new();
    out.push(labeled("ID:        ", log.id.as_str()));
    let name = opt_text(&log.webhook_name);
    let mut l2 = labeled("Endpoint:  ", name.as_str());
    l2.append(" (");
    l2.append(log.webhook_endpoint_id.as_str());
    l2.append(")");
    out.push(l2);
    let et = opt_text(&log.event_type);
    let mut l3 = labeled("Event:     ", et.as_str());
    l3.append(" (id=");
    l3.append(log.event_id.as_str());
    l3.append(")");
    out.push(l3);
    let mut l4 = labeled("Status:    ", crate::api::models::delivery_status_text(log.status));
    l4.append("  HTTP=");
    let http = http_code_text(log.response_status_code);
    l4.append(http.as_str());
    l4.append("  Duration=");
    let d = millis(log.duration_ms);
    l4.append(d.as_str());
    l4.append("  Attempt=");
    let a = i64_to_decimal(log.attempt_number as i64);
    l4.append(a.as_str());
    out.push(l4);
    let created = display_utc(log.created_on);
    out.push(labeled("Created:   ", created.as_str()));
    let ghost head = seq![
        "ID:        "@ + log.id@,
        "Endpoint:  "@ + or_empty(log.webhook_name) + " ("@ + log.webhook_endpoint_id@ + ")"@,
        "Event:     "@ + or_empty(log.event_type) + " (id="@ + log.event_id@ + ")"@,
        "Status:    "@ + delivery_status_name(log.status) + "  HTTP="@ + http_text(
            log.response_status_code,
        ) + "  Duration="@ + millis_text(log.duration_ms) + "  Attempt="@ + signed_decimal(
            log.attempt_number as int,
        ),
        "Created:   "@ + displayed_text(log.created_on),
    ];
    assert(out.deep_view() =~= head);
    match &log.error_message {
        Some(e) => {
            out.push(labeled("Error:     ", e.as_str()));
        },
        None => {},
    }
    let ghost with_error = out.deep_view();
    assert(with_error =~= match log.error_message {
        Some(e) => head.push("Error:     "@ + e@),
        None => head,
    });
    out.push(String::new());
    out.push(String::from_str("--- Request headers ---"));
    assert(out.deep_view() =~= with_error + seq![Seq::<char>::empty(), "--- Request headers ---"@]);
    let empty: Vec<Header> = Vec::new();
    let sorted = match &log.request_headers {
        Some(h) => sort_headers(h),
        None => sort_headers(&empty),
    };
    assert(empty.deep_view() =~= Seq::<(Seq<char>, Option<Seq<char>>)>::empty());
    let ghost before = out.deep_view();
    let mut i: usize = 0;
    while i < sorted.len()
        invariant
            i <= sorted@.len(),
            out.deep_view() == before + sorted.deep_view().take(i as int).map_values(
                |h: (Seq<char>, Option<Seq<char>>)| header_text(h),
            ),
        decreases sorted@.len() - i,
    {
        let line = header_line(&sorted[i]);
        let ghost prev = out.deep_view();
        out.push(line);
        proof {
            let f = |h: (Seq<char>, Option<Seq<char>>)| header_text(h);
            let sv = sorted.deep_view();
            assert(sv[i as int] == (sorted@[i as int].0@, sorted@[i as int].1.deep_view()));
            assert(sv.take(i + 1).map_values(f) =~= sv.take(i as int).map_values(f).push(
                header_text(sv[i as int]),
            ));
            assert(out.deep_view() =~= prev.push(header_text(sv[i as int])));
        }
        i = i + 1;
    }
    assert(sorted.deep_view().take(sorted@.len() as int) =~= sorted.deep_view());
    let ghost request = out.deep_view();
    assert(request =~= with_error + seq![Seq::<char>::empty(), "--- Request headers ---"@]
        + sorted.deep_view().map_values(|h: (Seq<char>, Option<Seq<char>>)| header_text(h)));
    match &log.request_body {
        Some(b) => {
            out.push(String::new());
            out.push(String::from_str("--- Request body ---"));
            out.push(b.clone());
            assert(out.deep_view() =~= request + seq![Seq::<char>::empty(), "--- Request body ---"@, b@]);
        },
        None => {},
    }
    let ghost with_body = out.deep_view();
    assert(with_body =~= match log.request_body {
        Some(b) => request + seq![Seq::<char>::empty(), "--- Request body ---"@, b@],
        None => request,
    });
    out.push(String::new());
    out.push(String::from_str("--- Response ---"));
    match log.response_status_code {
        Some(c) => {
            let t = i64_to_decimal(c as i64);
            out.push(labeled("HTTP ", t.as_str()));
        },
        None => {
            out.push(String::from_str("(no response received)"));
        },
    }
    let ghost response = out.deep_view();
    assert(response =~= with_body + seq![Seq::<char>::empty(), "--- Response ---"@, match log.response_status_code {
        Some(c) => "HTTP "@ + signed_decimal(c as int),
        None => "(no response received)"@,
    }]);
    match &log.response_body {
        Some(b) => {
            out.push(b.clone());
        },
        None => {},
    }
    assert(out.deep_view() =~= delivery_detail(*log, sorted.deep_view()));
    out
}


/// `g` is in strictly increasing order (so it has no repeats).
pub open spec fn strictly_sorted(g: Seq<Seq<char>>) -> bool {
    forall|i: int, j: int| 0 <= i < j < g.len() ==> lex_lt(#[trigger] g[i], #[trigger] g[j])
}

/// Whether some event type of `types` belongs to group `g`.
pub open spec fn has_group(types: Seq<EventTypeMeta>, g: Seq<char>) -> bool {
    exists|i: int| 0 <= i < types.len() && #[trigger] types[i].group@ == g
}

/// How an event type is listed under its group.
pub open spec fn member_line(t: EventTypeMeta) -> Seq<char> {
    if t.description@.len() == 0 {
        "  "@ + t.name@
    } else {
        "  "@ + padded(t.name@, 35) + "  "@ + t.description@
    }
}

/// The lines of the event types of `types` in group `g`, in catalog order.
pub open spec fn group_members(types: Seq<EventTypeMeta>, g: Seq<char>) -> Seq<Seq<char>>
    decreases types.len(),
{
    if types.len() == 0 {
        Seq::empty()
    } else {
        let rest = group_members(types.drop_last(), g);
        if types.last().group@ == g { rest.push(member_line(types.last())) } else { rest }
    }
}

/// For each group of `gs` in turn: `[group]`, then its members.
pub open spec fn group_blocks(types: Seq<EventTypeMeta>, gs: Seq<Seq<char>>) -> Seq<Seq<char>>
    decreases gs.len(),
{
    if gs.len() == 0 {
        Seq::empty()
    } else {
        group_blocks(types, gs.drop_last()) + seq!["["@ + gs.last() + "]"@] + group_members(
            types,
            gs.last(),
        )
    }
}

/// The groups of `types`, each once, in order of name.
fn sorted_groups(types: &Vec<EventTypeMeta>) -> (r: Vec<String>)
    ensures
        strictly_sorted(r.deep_view()),
        forall|g: Seq<char>| #[trigger] r.deep_view().contains(g) <==> has_group(types@, g),
{
    let mut out: Vec<String> = Vec::new();
    let mut i: usize = 0;
    while i < types.len()
        invariant
            i <= types@.len(),
            strictly_sorted(out.deep_view()),
            forall|g: Seq<char>| #[trigger] out.deep_view().contains(g) <==> has_group(types@.take(i as int), g),
        decreases types@.len() - i,
    {
        let g = &types[i].group;
        let mut k: usize = 0;
        while k < out.len() && text_less(out[k].as_str(), g.as_str())
            invariant
                k <= out@.len(),
                forall|j: int| 0 <= j < k ==> lex_lt(#[trigger] out.deep_view()[j], g@),
            decreases out@.len() - k,
        {
            k = k + 1;
        }
        let ghost before = out.deep_view();
        proof {
            assert forall|x: Seq<char>| has_group(types@.take(i + 1), x) <==> (has_group(
                types@.take(i as int),
                x,
            ) || x == g@) by {
                let t1 = types@.take(i + 1);
                let t0 = types@.take(i as int);
                if has_group(t1, x) {
                    let w = choose|w: int| 0 <= w < t1.len() && #[trigger] t1[w].group@ == x;
                    if w < i {
                        assert(t0[w].group@ == x);
                    }
                }
                if has_group(t0, x) {
                    let w = choose|w: int| 0 <= w < t0.len() && #[trigger] t0[w].group@ == x;
                    assert(t1[w].group@ == x);
                }
                if x == g@ {
                    assert(t1[i as int].group@ == x);
                }
            }
        }
        if k < out.len() && str_equal(out[k].as_str(), g.as_str()) {
            assert(before[k as int] == g@);
        } else {
            proof {
                if k < before.len() {
                    lemma_lex_order(before[k as int], g@, g@);
                }
            }
            out.insert(k, g.clone());
            proof {
                let o = out.deep_view();
                assert(o =~= before.insert(k as int, g@));
                assert forall|a: int, b: int| 0 <= a < b < o.len() implies lex_lt(
                    #[trigger] o[a],
                    #[trigger] o[b],
                ) by {
                    if b < k {
                    } else if a > k {
                    } else if a == k {
                        if b > k + 1 {
                            lemma_lex_order(g@, before[k as int], o[b]);
                        }
                    } else {
                        if b > k {
                            lemma_lex_order(o[a], g@, o[b]);
                        }
                    }
                }
                assert forall|x: Seq<char>| #[trigger] o.contains(x) <==> (before.contains(x) || x == g@) by {
                    if o.contains(x) {
                        let w = choose|w: int| 0 <= w < o.len() && o[w] == x;
                        if w < k {
                            assert(before[w] == x);
                        } else if w > k {
                            assert(before[w - 1] == x);
                        }
                    }
                    if before.contains(x) {
                        let w = choose|w: int| 0 <= w < before.len() && before[w] == x;
                        if w < k {
                            assert(o[w] == x);
                        } else {
                            assert(o[w + 1] == x);
                        }
                    }
                    if x == g@ {
                        assert(o[k as int] == x);
                    }
                }
            }
        }
        i = i + 1;
    }
    assert(types@.take(types@.len() as int) =~= types@);
    out
}

fn member_text(t: &EventTypeMeta) -> (r: String)
    ensures
        r@ == member_line(*t),
{
    let mut s = String::from_str("  ");
    if t.description.as_str().is_empty() {
        s.append(t.name.as_str());
    } else {
        let p = pad_right(t.name.as_str(), 35);
        s.append(p.as_str());
        s.append("  ");
        s.append(t.description.as_str());
    }
    s
}

/// The catalog printed by `webhooks event-types list`: the groups in order
/// of name, each as `[group]` followed by its event types in catalog order.
pub fn event_types_lines(types: &Vec<EventTypeMeta>) -> (r: Vec<String>)
    ensures
        exists|gs: Seq<Seq<char>>|
            strictly_sorted(gs) && (forall|g: Seq<char>| #[trigger] gs.contains(g) <==> has_group(types@, g))
                && r.deep_view() == group_blocks(types@, gs),
{
    let groups = sorted_groups(types);
    let mut out: Vec<String> = Vec::new();
    let mut gi: usize = 0;
    while gi < groups.len()
        invariant
            gi <= groups@.len(),
            out.deep_view() == group_blocks(types@, groups.deep_view().take(gi as int)),
        decreases groups@.len() - gi,
    {
        let g = &groups[gi];
        let mut h = String::from_str("[");
        h.append(g.as_str());
        h.append("]");
        out.push(h);
        let ghost start = out.deep_view();
        let mut j: usize = 0;
        while j < types.len()
            invariant
                j <= types@.len(),
                out.deep_view() == start + group_members(types@.take(j as int), g@),
            decreases types@.len() - j,
        {
            assert(types@.take(j + 1).drop_last() =~= types@.take(j as int));
            assert(types@.take(j + 1).last() == types@[j as int]);
            let ghost prev = out.deep_view();
            if str_equal(types[j].group.as_str(), g.as_str()) {
                let line = member_text(&types[j]);
                out.push(line);
                assert(out.deep_view() =~= prev.push(member_line(types@[j as int])));
                assert(start + group_members(types@.take(j + 1), g@) =~= (start + group_members(
                    types@.take(j as int),
                    g@,
                )).push(member_line(types@[j as int])));
            }
            j = j + 1;
        }
        assert(types@.take(types@.len() as int) =~= types@);
        assert(groups.deep_view().take(gi + 1).drop_last() =~= groups.deep_view().take(gi as int));
        gi = gi + 1;
    }
    assert(groups.deep_view().take(groups@.len() as int) =~= groups.deep_view());
    out
}


/// A fitted cell is always exactly as wide as its column, in characters.
pub proof fn lemma_fitted_width(s: Seq<char>, width: nat)
    ensures
        fitted(s, width).len() == width,
{
}


/// The group order of the event-type catalog is fully determined: two lists
/// of groups, each strictly in order of name, that hold the same groups are
/// the same list.
pub proof fn lemma_sorted_groups_unique(a: Seq<Seq<char>>, b: Seq<Seq<char>>)
    requires
        strictly_sorted(a),
        strictly_sorted(b),
        forall|g: Seq<char>| #![trigger a.contains(g)] #![trigger b.contains(g)] a.contains(g) <==> b.contains(g),
    ensures
        a == b,
    decreases a.len(),
{
    if a.len() == 0 {
        if b.len() > 0 {
            assert(b.contains(b[0]));
        }
        assert(a =~= b);
    } else {
        assert(a.contains(a[0]));
        assert(b.len() > 0);
        assert(b.contains(b[0]));
        let k = choose|k: int| 0 <= k < a.len() && a[k] == b[0];
        let m = choose|m: int| 0 <= m < b.len() && b[m] == a[0];
        lemma_lex_order(a[0], b[0], a[0]);
        if k > 0 && m > 0 {
            assert(lex_lt(a[0], a[k]));
            assert(lex_lt(b[0], b[m]));
        }
        assert(a[0] == b[0]);
        let ta = a.drop_first();
        let tb = b.drop_first();
        assert forall|g: Seq<char>| #![trigger ta.contains(g)] #![trigger tb.contains(g)] ta.contains(g) <==> tb.contains(g) by {
            if ta.contains(g) {
                let i = choose|i: int| 0 <= i < ta.len() && ta[i] == g;
                assert(a[i + 1] == g);
                assert(lex_lt(a[0], a[i + 1]));
                lemma_lex_order(a[0], g, g);
                assert(a.contains(g));
                let j = choose|j: int| 0 <= j < b.len() && b[j] == g;
                assert(j != 0);
                assert(tb[j - 1] == g);
            }
            if tb.contains(g) {
                let i = choose|i: int| 0 <= i < tb.len() && tb[i] == g;
                assert(b[i + 1] == g);
                assert(lex_lt(b[0], b[i + 1]));
                lemma_lex_order(b[0], g, g);
                assert(b.contains(g));
                let j = choose|j: int| 0 <= j < a.len() && a[j] == g;
                assert(j != 0);
                assert(ta[j - 1] == g);
            }
        }
        assert forall|i: int, j: int| 0 <= i < j < ta.len() implies lex_lt(#[trigger] ta[i], #[trigger] ta[j]) by {
            assert(ta[i] == a[i + 1] && ta[j] == a[j + 1]);
        }
        assert forall|i: int, j: int| 0 <= i < j < tb.len() implies lex_lt(#[trigger] tb[i], #[trigger] tb[j]) by {
            assert(tb[i] == b[i + 1] && tb[j] == b[j + 1]);
        }
        lemma_sorted_groups_unique(ta, tb);
        assert(a =~= seq![a[0]] + ta);
        assert(b =~= seq![b[0]] + tb);
    }
}


/// Whether no two headers of `h` share a name.
pub open spec fn distinct_names(h: Seq<(Seq<char>, Option<Seq<char>>)>) -> bool {
    forall|i: int, j: int| 0 <= i < j < h.len() ==> #[trigger] h[i].0 != #[trigger] h[j].0
}

/// The header order of a delivery's detail view is fully determined when no
/// two headers share a name: two lists of the same headers, each in order
/// of name, are the same list.
pub proof fn lemma_sorted_headers_unique(
    a: Seq<(Seq<char>, Option<Seq<char>>)>,
    b: Seq<(Seq<char>, Option<Seq<char>>)>,
)
    requires
        headers_sorted(a),
        headers_sorted(b),
        distinct_names(a),
        a.to_multiset() == b.to_multiset(),
    ensures
        a == b,
    decreases a.len(),
{
    a.to_multiset_ensures();
    b.to_multiset_ensures();
    if a.len() == 0 {
        assert(b.len() == 0);
        assert(a =~= b);
    } else {
        assert(a.contains(a[0]));
        assert(a.to_multiset().count(a[0]) > 0);
        assert(b.to_multiset().count(a[0]) > 0);
        assert(b.contains(a[0]));
        assert(b.len() > 0);
        assert(b.contains(b[0]));
        assert(b.to_multiset().count(b[0]) > 0);
        assert(a.to_multiset().count(b[0]) > 0);
        assert(a.contains(b[0]));
        let k = choose|k: int| 0 <= k < a.len() && a[k] == b[0];
        let m = choose|m: int| 0 <= m < b.len() && b[m] == a[0];
        if k > 0 && m > 0 {
            assert(!lex_lt(a[k].0, a[0].0));
            assert(a[0].0 != a[k].0);
            assert(!lex_lt(b[m].0, b[0].0));
            lemma_lex_order(a[0].0, b[0].0, a[0].0);
        }
        assert(a[0] == b[0]);
        let ta = a.drop_first();
        let tb = b.drop_first();
        assert(a.remove(0) =~= ta);
        assert(b.remove(0) =~= tb);
        vstd::seq_lib::to_multiset_remove(a, 0);
        vstd::seq_lib::to_multiset_remove(b, 0);
        assert forall|i: int, j: int| 0 <= i < j < ta.len() implies !lex_lt(#[trigger] ta[j].0, #[trigger] ta[i].0) by {
            assert(ta[i] == a[i + 1] && ta[j] == a[j + 1]);
        }
        assert forall|i: int, j: int| 0 <= i < j < tb.len() implies !lex_lt(#[trigger] tb[j].0, #[trigger] tb[i].0) by {
            assert(tb[i] == b[i + 1] && tb[j] == b[j + 1]);
        }
        assert forall|i: int, j: int| 0 <= i < j < ta.len() implies #[trigger] ta[i].0 != #[trigger] ta[j].0 by {
            assert(ta[i] == a[i + 1] && ta[j] == a[j + 1]);
        }
        lemma_sorted_headers_unique(ta, tb);
        assert(a =~= seq![a[0]] + ta);
        assert(b =~= seq![b[0]] + tb);
    }
}
} // verus!
