//! What the dashboard is told once the background worker has done an
//! [`AppAction`](crate::tui::app::AppAction).

use vstd::prelude::*;
use vstd::string::StringExecFns;
use crate::api::error::{api_error_text, ApiError};
use crate::api::models::PingResponseDto;
use crate::cli::output::millis_text;
use crate::text::{id_prefix, i64_to_decimal, short_id, signed_decimal, text_or};
use crate::tui::app::ActionOutcome;

verus! {

/// A failed request: its message is shown until dismissed.
pub fn failure_outcome(e: &ApiError) -> (o: ActionOutcome)
    ensures
        o matches ActionOutcome::Error(m) && m@ == api_error_text(*e),
{
    ActionOutcome::Error(e.to_text())
}

/// A created endpoint: its signing secret (or a note that none came back).
pub fn created_outcome(secret: Option<String>) -> (o: ActionOutcome)
    ensures
        o matches ActionOutcome::Created { secret: s } && s@ == text_or(secret, "(none returned)"@),
{
    let s = match secret {
        Some(s) => s,
        None => String::from_str("(none returned)"),
    };
    ActionOutcome::Created { secret: s }
}

/// A deleted endpoint.
pub fn deleted_outcome() -> (o: ActionOutcome)
    ensures
        o matches ActionOutcome::Toast(m) && m@ == "Webhook deleted"@,
{
    ActionOutcome::Toast(String::from_str("Webhook deleted"))
}

/// The toast for a ping's answer: the listener's status and the round
/// trip when it was delivered, otherwise the time taken and why it failed.
pub open spec fn ping_toast(p: PingResponseDto) -> Seq<char> {
    if p.success {
        "Ping OK: HTTP "@ + match p.status_code {
            Some(c) => signed_decimal(c as int),
            None => "—"@,
        } + " in "@ + millis_text(p.duration_ms)
    } else {
        "Ping failed in "@ + millis_text(p.duration_ms) + ": "@ + text_or(
            p.error_message,
            "no detail"@,
        )
    }
}

/// The answer to a ping, as a toast (see [`ping_toast`]).
pub fn ping_outcome(p: &PingResponseDto) -> (o: ActionOutcome)
    ensures
        o matches ActionOutcome::Toast(m) && m@ == ping_toast(*p),
{
    let ms = i64_to_decimal(p.duration_ms as i64);
    if p.success {
        let mut s = String::from_str("Ping OK: HTTP ");
        match p.status_code {
            Some(c) => {
                let t = i64_to_decimal(c as i64);
                s.append(t.as_str());
            },
            None => {
                s.append("—");
            },
        }
        s.append(" in ");
        s.append(ms.as_str());
        s.append("ms");
        assert(s@ =~= ping_toast(*p));
        ActionOutcome::Toast(s)
    } else {
        let mut s = String::from_str("Ping failed in ");
        s.append(ms.as_str());
        s.append("ms");
        s.append(": ");
        match &p.error_message {
            Some(e) => {
                s.append(e.as_str());
            },
            None => {
                s.append("no detail");
            },
        }
        assert(s@ =~= ping_toast(*p));
        ActionOutcome::Toast(s)
    }
}

/// A retry of the delivery `id` was accepted.
pub fn retry_outcome(id: &str) -> (o: ActionOutcome)
    ensures
        o matches ActionOutcome::Toast(m) && m@ == "Retry queued for "@ + id_prefix(id@) + "…"@,
{
    let mut s = String::from_str("Retry queued for ");
    let p = short_id(id);
    s.append(p.as_str());
    s.append("…");
    ActionOutcome::Toast(s)
}

/// A forward to the listener failed with `reason`; forwards are best effort,
/// so this is only a toast.
pub fn forward_failed_outcome(reason: &str) -> (o: ActionOutcome)
    ensures
        o matches ActionOutcome::Toast(m) && m@ == "Forward failed: "@ + reason@,
{
    let mut s = String::from_str("Forward failed: ");
    s.append(reason);
    ActionOutcome::Toast(s)
}

/// The error shown when a poll fails with `reason`.
pub fn poll_error_text(reason: &str) -> (r: String)
    ensures
        r@ == "Poll error: "@ + reason@,
{
    let mut s = String::from_str("Poll error: ");
    s.append(reason);
    s
}

/// The toast when the worker's queue is full.
pub fn busy_text() -> (r: String)
    ensures
        r@ == "Busy — try again in a moment"@,
{
    String::from_str("Busy — try again in a moment")
}

} // verus!
