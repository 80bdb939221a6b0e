//! Requests and messages of the `webhooks …` commands.

use vstd::prelude::*;
use vstd::string::StringExecFns;
use crate::api::models::{
    endpoint_status_name, endpoint_status_text, CreateWebhookEndpointRequest,
    CreateWebhookEndpointResponse, GetWebhookEndpointDto, UpdateWebhookEndpointRequest,
    WebhookEndpointStatus,
};
use crate::cli::output::or_empty;
use crate::cli::{DeliveryStatusArg, EndpointStatusArg, OutputFormat};
use crate::text::{
    copy_strings, decimal, join_texts, joined, text_or, texts_or_empty, trim_chars, trimmed,
    u64_to_decimal,
};
use crate::time::{displayed_text, display_utc};

verus! {

/// How a delivery status is spelled in the API's query string.
pub open spec fn status_query_value(s: DeliveryStatusArg) -> Seq<char> {
    match s {
        DeliveryStatusArg::Success => "Success"@,
        DeliveryStatusArg::Failed => "Failure"@,
        DeliveryStatusArg::Pending => "Pending"@,
    }
}

/// The query of the delivery list: the page size, then the endpoint and
/// status filters when given.
pub open spec fn deliveries_query(
    endpoint_id: Option<Seq<char>>,
    status: Option<DeliveryStatusArg>,
    limit: u32,
) -> Seq<char> {
    let base = "?pageSize="@ + decimal(limit as nat);
    let with_id = match endpoint_id {
        Some(id) => base + "&webhookId="@ + id,
        None => base,
    };
    match status {
        Some(s) => with_id + "&status="@ + status_query_value(s),
        None => with_id,
    }
}

/// Builds `?pageSize=…[&webhookId=…][&status=…]` for the delivery list
/// (the `--limit` flag caps the page size).
pub fn build_deliveries_query(
    endpoint_id: Option<&str>,
    status: Option<DeliveryStatusArg>,
    limit: u32,
) -> (r: String)
    ensures
        r@ == deliveries_query(
            match endpoint_id {
                Some(s) => Some(s@),
                None => None,
            },
            status,
            limit,
        ),
{
    let mut q = String::from_str("?pageSize=");
    let n = u64_to_decimal(limit as u64);
    q.append(n.as_str());
    match endpoint_id {
        Some(id) => {
            q.append("&webhookId=");
            q.append(id);
        },
        None => {},
    }
    match status {
        Some(s) => {
            q.append("&status=");
            q.append(
                match s {
                    DeliveryStatusArg::Success => "Success",
                    DeliveryStatusArg::Failed => "Failure",
                    DeliveryStatusArg::Pending => "Pending",
                },
            );
        },
        None => {},
    }
    q
}

/// Message when `endpoints create` is given no event types.
pub open spec fn missing_events_message() -> Seq<char> {
    "--events is required (e.g. --events transaction.card.captured,refund.completed)"@
}

/// The create request for `endpoints create`: refused when no event type
/// is given; the name defaults to `Untitled Webhook`.
pub fn create_request(url: String, events: Vec<String>, name: Option<String>) -> (r: Result<
    CreateWebhookEndpointRequest,
    String,
>)
    ensures
        events@.len() == 0 ==> (r matches Err(m) && m@ == missing_events_message()),
        events@.len() > 0 ==> (r matches Ok(req) && req.endpoint_url@ == url@
            && req.event_types.deep_view() == events.deep_view() && req.name@ == text_or(
            name,
            "Untitled Webhook"@,
        )),
{
    if events.len() == 0 {
        return Err(
            String::from_str(
                "--events is required (e.g. --events transaction.card.captured,refund.completed)",
            ),
        );
    }
    let name = match name {
        Some(n) => n,
        None => String::from_str("Untitled Webhook"),
    };
    Ok(CreateWebhookEndpointRequest { name, endpoint_url: url, event_types: events })
}

/// The status an update asks for: the flag when given, else the current one.
pub open spec fn merged_status(flag: Option<EndpointStatusArg>, current: WebhookEndpointStatus) -> WebhookEndpointStatus {
    match flag {
        Some(EndpointStatusArg::Active) => WebhookEndpointStatus::Active,
        Some(EndpointStatusArg::Inactive) => WebhookEndpointStatus::Inactive,
        None => current,
    }
}

/// The full endpoint to send for `endpoints update`: each field given on
/// the command line, every other field as `current` has it (missing texts
/// and lists empty), so a rename never clears the subscriptions.
pub fn merge_update(
    current: &GetWebhookEndpointDto,
    url: Option<String>,
    events: Option<Vec<String>>,
    name: Option<String>,
    status: Option<EndpointStatusArg>,
) -> (r: UpdateWebhookEndpointRequest)
    ensures
        r.name@ == (match name {
            Some(n) => n@,
            None => or_empty(current.name),
        }),
        r.endpoint_url@ == (match url {
            Some(u) => u@,
            None => or_empty(current.endpoint_url),
        }),
        r.status == merged_status(status, current.status),
        r.event_types.deep_view() == (match events {
            Some(e) => e.deep_view(),
            None => texts_or_empty(current.event_types),
        }),
{
    let name = match name {
        Some(n) => n,
        None => match &current.name {
            Some(n) => n.clone(),
            None => String::new(),
        },
    };
    let endpoint_url = match url {
        Some(u) => u,
        None => match &current.endpoint_url {
            Some(u) => u.clone(),
            None => String::new(),
        },
    };
    let status = match status {
        Some(EndpointStatusArg::Active) => WebhookEndpointStatus::Active,
        Some(EndpointStatusArg::Inactive) => WebhookEndpointStatus::Inactive,
        None => current.status,
    };
    let event_types = match events {
        Some(e) => e,
        None => match &current.event_types {
            Some(e) => copy_strings(e),
            None => {
                let v: Vec<String> = Vec::new();
                assert(v.deep_view() =~= Seq::<Seq<char>>::empty());
                v
            },
        },
    };
    UpdateWebhookEndpointRequest { name, endpoint_url, status, event_types }
}

/// The table-mode report of a created endpoint, ending with its signing
/// secret (shown only this once).
pub open spec fn created_report(resp: CreateWebhookEndpointResponse) -> Seq<Seq<char>> {
    let base = seq![
        "ID:        "@ + resp.id@,
        "Name:      "@ + or_empty(resp.name),
        "URL:       "@ + or_empty(resp.endpoint_url),
        "Status:    "@ + endpoint_status_name(resp.status),
    ];
    let with_events = match resp.event_types {
        Some(v) => base.push("Events:    "@ + joined(v.deep_view(), ", "@)),
        None => base,
    };
    let with_created = match resp.created_on {
        Some(t) => with_events.push("Created:   "@ + displayed_text(t)),
        None => with_events,
    };
    with_created + seq![
        Seq::empty(),
        "⚠ Save the signing secret now — it will not be shown again."@,
        "Secret:    "@ + text_or(resp.hmac_secret, "(none returned)"@),
    ]
}

fn labeled(label: &str, value: &str) -> (r: String)
    ensures
        r@ == label@ + value@,
{
    let mut s = String::from_str(label);
    s.append(value);
    s
}

/// The lines printed for a created endpoint in table mode (see
/// [`created_report`]).
pub fn created_endpoint_lines(resp: &CreateWebhookEndpointResponse) -> (r: Vec<String>)
    ensures
        r.deep_view() == created_report(*resp),
{
    let mut out: Vec<String> = Vec::new();
    out.push(labeled("ID:        ", resp.id.as_str()));
    let name = match &resp.name {
        Some(n) => n.clone(),
        None => String::new(),
    };
    out.push(labeled("Name:      ", name.as_str()));
    let url = match &resp.endpoint_url {
        Some(u) => u.clone(),
        None => String::new(),
    };
    out.push(labeled("URL:       ", url.as_str()));
    out.push(labeled("Status:    ", endpoint_status_text(resp.status)));
    match &resp.event_types {
        Some(v) => {
            let j = join_texts(v, ", ");
            out.push(labeled("Events:    ", j.as_str()));
        },
        None => {},
    }
    match resp.created_on {
        Some(t) => {
            let d = display_utc(t);
            out.push(labeled("Created:   ", d.as_str()));
        },
        None => {},
    }
    out.push(String::new());
    out.push(String::from_str("⚠ Save the signing secret now — it will not be shown again."));
    let secret = match &resp.hmac_secret {
        Some(s) => s.clone(),
        None => String::from_str("(none returned)"),
    };
    out.push(labeled("Secret:    ", secret.as_str()));
    assert(out.deep_view() =~= created_report(*resp));
    out
}

/// How `endpoints delete` gets its confirmation.
#[derive(Debug, Clone, Copy, PartialEq, Eq, Structural)]
pub enum DeleteGate {
    /// `--yes` was given: delete at once.
    Proceed,
    /// Ask on the terminal (see [`delete_prompt`]).
    Prompt,
    /// Nobody can be asked (JSON output, or stdin is not a terminal):
    /// refuse without `--yes`.
    Refuse,
}

/// The confirmation rule of `endpoints delete`: `--yes` deletes at once;
/// without it, table output on an interactive stdin prompts, and JSON
/// output or a non-interactive stdin refuses.
pub fn delete_gate(yes: bool, fmt: OutputFormat, stdin_is_terminal: bool) -> (r: DeleteGate)
    ensures
        r == (if yes {
            DeleteGate::Proceed
        } else if fmt == OutputFormat::Table && stdin_is_terminal {
            DeleteGate::Prompt
        } else {
            DeleteGate::Refuse
        }),
{
    if yes {
        DeleteGate::Proceed
    } else if fmt == OutputFormat::Table && stdin_is_terminal {
        DeleteGate::Prompt
    } else {
        DeleteGate::Refuse
    }
}

/// The error when deleting `id` is refused for want of `--yes`.
pub fn delete_refused_message(id: &str) -> (r: String)
    ensures
        r@ == "refusing to delete endpoint "@ + id@ + " without --yes (no interactive confirmation possible)"@,
{
    let mut s = String::from_str("refusing to delete endpoint ");
    s.append(id);
    s.append(" without --yes (no interactive confirmation possible)");
    s
}

/// The prompt before deleting the endpoint `id` without `--yes`.
pub fn delete_prompt(id: &str) -> (r: String)
    ensures
        r@ == "Delete endpoint "@ + id@ + "? Type 'yes' to confirm: "@,
{
    let mut s = String::from_str("Delete endpoint ");
    s.append(id);
    s.append("? Type 'yes' to confirm: ");
    s
}

/// Whether the answer typed at the delete prompt confirms: `yes`, give or
/// take surrounding white space.
pub fn delete_confirmed(answer: &str) -> (r: bool)
    ensures
        r == (trimmed(answer@) == "yes"@),
{
    let t = trim_chars(answer);
    let s = crate::text::string_from_chars(&t);
    crate::text::str_equal(s.as_str(), "yes")
}

/// What `endpoints delete` prints once the endpoint `id` is gone.
pub open spec fn deleted_text(id: Seq<char>, fmt: OutputFormat) -> Seq<char> {
    match fmt {
        OutputFormat::Json => "{\"deleted\":\""@ + id + "\"}"@,
        OutputFormat::Table => "Deleted endpoint "@ + id + "."@,
    }
}

/// The confirmation printed after deleting the endpoint `id`.
pub fn deleted_message(id: &str, fmt: OutputFormat) -> (r: String)
    ensures
        r@ == deleted_text(id@, fmt),
{
    match fmt {
        OutputFormat::Json => {
            let mut s = String::from_str("{\"deleted\":\"");
            s.append(id);
            s.append("\"}");
            s
        },
        OutputFormat::Table => {
            let mut s = String::from_str("Deleted endpoint ");
            s.append(id);
            s.append(".");
            s
        },
    }
}


/// What `deliveries retry` prints in table mode, around the server's reply
/// (`reply`, as compact JSON).
pub fn retry_queued_message(reply: &str) -> (r: String)
    ensures
        r@ == "Retry queued: "@ + reply@,
{
    let mut s = String::from_str("Retry queued: ");
    s.append(reply);
    s
}

} // verus!
