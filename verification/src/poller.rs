//! Polling cadence: the interval between polls, the exponential backoff
//! after failed polls, and the snapshot a successful poll yields.

use vstd::prelude::*;
use vstd::string::StringExecFns;
use crate::api::error::ApiError;
use crate::api::models::{DeliveryLogSummaryDto, GetWebhookEndpointDto, ListEventTypesDto};
use crate::config::POLL_BACKOFF_SECS;
use crate::domain::{
    event_type_from_dto, endpoint_from_dto, log_from_dto, DeliveryLog, Endpoint, EventTypeMeta,
};
use crate::text::reverse_vec;
use crate::time::Timestamp;

verus! {

/// Hard cap on a backoff sleep, in seconds.
pub const MAX_BACKOFF_SECS: u64 = 300;

/// Largest doubling exponent of the backoff (2^6 = 64 times the base).
pub const BACKOFF_EXPONENT_CAP: u32 = 6;

/// Which interval the poller should use.
#[derive(Debug, Clone, Copy, PartialEq, Eq, Structural)]
pub enum CadenceMode {
    /// The user-configured interval.
    Active,
    /// At least `POLL_BACKOFF_SECS` while a form is open.
    Backoff,
}

/// The polling interval, in seconds, for `mode`.
pub open spec fn interval_spec(mode: CadenceMode, configured_secs: nat) -> nat {
    match mode {
        CadenceMode::Active => configured_secs,
        CadenceMode::Backoff => if configured_secs > POLL_BACKOFF_SECS {
            configured_secs
        } else {
            POLL_BACKOFF_SECS as nat
        },
    }
}

/// The polling interval, in seconds: the configured one, or in backoff mode
/// the larger of it and `POLL_BACKOFF_SECS` (backoff never polls faster).
pub fn current_interval(mode: CadenceMode, configured_secs: u64) -> (secs: u64)
    ensures
        secs == interval_spec(mode, configured_secs as nat),
{
    match mode {
        CadenceMode::Active => configured_secs,
        CadenceMode::Backoff => if configured_secs > POLL_BACKOFF_SECS {
            configured_secs
        } else {
            POLL_BACKOFF_SECS
        },
    }
}

/// Errors after which polling backs off: 401, 403, 404, any 5xx, transport
/// and token failures. A decode failure is a client-side bug and does not.
pub open spec fn backoff_eligible_spec(err: ApiError) -> bool {
    match err {
        ApiError::Api { status, .. } => status == 401 || status == 403 || status == 404 || (500
            <= status <= 599),
        ApiError::Transport(_) => true,
        ApiError::Auth(_) => true,
        ApiError::Decode(_) => false,
    }
}

/// Whether a failed poll with `err` counts toward the backoff.
pub fn is_backoff_eligible(err: &ApiError) -> (r: bool)
    ensures
        r == backoff_eligible_spec(*err),
        *err is Transport ==> r,
        *err is Auth ==> r,
        *err is Decode ==> !r,
        *err matches ApiError::Api { status, .. } ==> (r <==> (status == 401 || status == 403
            || status == 404 || (500 <= status && status <= 599))),
{
    proof {
        lemma_backoff_eligibility(*err);
    }
    match err {
        ApiError::Api { status, .. } => *status == 401 || *status == 403 || *status == 404 || (
        500 <= *status && *status <= 599),
        ApiError::Transport(_) => true,
        ApiError::Auth(_) => true,
        ApiError::Decode(_) => false,
    }
}

/// Which failed polls slow polling down: an unreachable API (transport
/// error) and a refused token always do; a reply that cannot be decoded
/// never does; an API error does exactly for 401, 403, 404 and 500-599.
pub proof fn lemma_backoff_eligibility(err: ApiError)
    ensures
        err is Transport ==> backoff_eligible_spec(err),
        err is Auth ==> backoff_eligible_spec(err),
        err is Decode ==> !backoff_eligible_spec(err),
        err matches ApiError::Api { status, .. } ==> (backoff_eligible_spec(err) <==> (status == 401
            || status == 403 || status == 404 || (500 <= status && status <= 599))),
{
}

/// `2^n`.
pub open spec fn pow2(n: nat) -> nat
    decreases n,
{
    if n == 0 {
        1
    } else {
        2 * pow2((n - 1) as nat)
    }
}

/// Sleep before the next poll after `failures` consecutive eligible
/// failures: the base interval when there are none, otherwise the base
/// doubled per failure (at most `2^BACKOFF_EXPONENT_CAP` times), capped at
/// [`backoff_cap`].
pub open spec fn backoff_spec(base: nat, failures: nat) -> nat {
    if failures == 0 {
        base
    } else {
        let exp = if failures < BACKOFF_EXPONENT_CAP { failures } else {
            BACKOFF_EXPONENT_CAP as nat
        };
        let grown = base * pow2(exp);
        if grown < backoff_cap(base) { grown } else { backoff_cap(base) }
    }
}

/// The longest sleep after failures: `MAX_BACKOFF_SECS`, or the base
/// interval when that is longer, so backoff never polls faster than the
/// normal cadence.
pub open spec fn backoff_cap(base: nat) -> nat {
    if base > MAX_BACKOFF_SECS { base } else { MAX_BACKOFF_SECS as nat }
}

fn pow2_exec(exp: u32) -> (r: u64)
    requires
        exp <= BACKOFF_EXPONENT_CAP,
    ensures
        r == pow2(exp as nat),
{
    proof {
        reveal_with_fuel(pow2, 7);
    }
    if exp == 0 { 1 }
    else if exp == 1 { 2 }
    else if exp == 2 { 4 }
    else if exp == 3 { 8 }
    else if exp == 4 { 16 }
    else if exp == 5 { 32 }
    else { 64 }
}

/// Seconds to sleep after `consecutive_failures` eligible failures in a row,
/// given the base interval `base_secs`.
pub fn backoff_seconds(base_secs: u64, consecutive_failures: u32) -> (secs: u64)
    ensures
        secs == backoff_spec(base_secs as nat, consecutive_failures as nat),
{
    if consecutive_failures == 0 {
        return base_secs;
    }
    let exp: u32 = if consecutive_failures < BACKOFF_EXPONENT_CAP {
        consecutive_failures
    } else {
        BACKOFF_EXPONENT_CAP
    };
    let factor = pow2_exec(exp);
    let grown: u64 = match base_secs.checked_mul(factor) {
        Some(g) => g,
        None => u64::MAX,
    };
    let cap: u64 = if base_secs > MAX_BACKOFF_SECS { base_secs } else { MAX_BACKOFF_SECS };
    if grown < cap {
        grown
    } else {
        cap
    }
}

proof fn lemma_pow2_at_least_one(n: nat)
    ensures
        pow2(n) >= 1,
    decreases n,
{
    if n > 0 {
        lemma_pow2_at_least_one((n - 1) as nat);
    }
}

proof fn lemma_pow2_monotone(n: nat, m: nat)
    requires
        n <= m,
    ensures
        pow2(n) <= pow2(m),
    decreases m,
{
    if n < m {
        lemma_pow2_monotone(n, (m - 1) as nat);
        lemma_pow2_at_least_one((m - 1) as nat);
    }
}

/// Backoff never polls faster than the normal cadence.
pub proof fn lemma_backoff_never_faster_than_base(base: nat, failures: nat)
    ensures
        backoff_spec(base, failures) >= base,
{
    if failures > 0 {
        let exp = if failures < BACKOFF_EXPONENT_CAP { failures } else {
            BACKOFF_EXPONENT_CAP as nat
        };
        lemma_pow2_at_least_one(exp);
        assert(base * pow2(exp) >= base) by (nonlinear_arith)
            requires
                pow2(exp) >= 1,
        ;
    }
}

/// Once a poll has failed, the sleep never exceeds `MAX_BACKOFF_SECS`, or
/// the base interval when that is longer.
pub proof fn lemma_backoff_capped(base: nat, failures: nat)
    requires
        failures > 0,
    ensures
        backoff_spec(base, failures) <= MAX_BACKOFF_SECS || backoff_spec(base, failures) == base,
        backoff_spec(base, failures) <= backoff_cap(base),
{
    lemma_backoff_never_faster_than_base(base, failures);
}

/// More consecutive failures never shorten the sleep.
pub proof fn lemma_backoff_monotone(base: nat, fewer: nat, more: nat)
    requires
        fewer <= more,
    ensures
        backoff_spec(base, fewer) <= backoff_spec(base, more),
{
    if fewer == 0 {
        lemma_backoff_never_faster_than_base(base, more);
    } else {
        let e1 = if fewer < BACKOFF_EXPONENT_CAP { fewer } else { BACKOFF_EXPONENT_CAP as nat };
        let e2 = if more < BACKOFF_EXPONENT_CAP { more } else { BACKOFF_EXPONENT_CAP as nat };
        lemma_pow2_monotone(e1, e2);
        let p1 = pow2(e1);
        let p2 = pow2(e2);
        assert(base * p1 <= base * p2) by (nonlinear_arith)
            requires
                p1 <= p2,
        ;
    }
}

/// Opening a form never makes polling faster than the configured cadence,
/// and never faster than `POLL_BACKOFF_SECS`.
pub proof fn lemma_form_cadence_is_slower(configured_secs: nat)
    ensures
        interval_spec(CadenceMode::Backoff, configured_secs) >= interval_spec(
            CadenceMode::Active,
            configured_secs,
        ),
        interval_spec(CadenceMode::Backoff, configured_secs) >= POLL_BACKOFF_SECS,
{
}

/// How one poll ended, as far as the backoff is concerned.
#[derive(Debug, Clone, Copy, PartialEq, Eq, Structural)]
pub enum PollOutcome {
    Succeeded,
    Failed { backoff_eligible: bool },
}

/// The poller's memory between polls: how many eligible failures in a row.
#[derive(Debug, Clone, Copy, PartialEq, Eq, Structural)]
pub struct PollTracker {
    pub consecutive_failures: u32,
}

impl PollTracker {
    /// No failures yet.
    pub fn new() -> (t: Self)
        ensures
            t.consecutive_failures == 0,
    {
        PollTracker { consecutive_failures: 0 }
    }

    /// Records how a poll ended: a success resets the count, an eligible
    /// failure increments it (saturating), any other failure leaves it.
    pub fn record(&mut self, outcome: PollOutcome)
        ensures
            match outcome {
                PollOutcome::Succeeded => final(self).consecutive_failures == 0,
                PollOutcome::Failed { backoff_eligible } => if backoff_eligible {
                    final(self).consecutive_failures == (if old(self).consecutive_failures
                        == u32::MAX {
                        u32::MAX as int
                    } else {
                        old(self).consecutive_failures + 1
                    })
                } else {
                    final(self).consecutive_failures == old(self).consecutive_failures
                },
            },
    {
        match outcome {
            PollOutcome::Succeeded => {
                self.consecutive_failures = 0;
            },
            PollOutcome::Failed { backoff_eligible } => {
                if backoff_eligible {
                    self.consecutive_failures = self.consecutive_failures.saturating_add(1);
                }
            },
        }
    }

    /// Seconds to sleep before the next poll, given the base interval.
    pub fn sleep_seconds(&self, base_secs: u64) -> (secs: u64)
        ensures
            secs == backoff_spec(base_secs as nat, self.consecutive_failures as nat),
    {
        backoff_seconds(base_secs, self.consecutive_failures)
    }
}

/// What one successful poll saw.
#[derive(Debug)]
pub struct Snapshot {
    pub endpoints: Vec<Endpoint>,
    pub logs: Vec<DeliveryLog>,
    pub event_types: Vec<EventTypeMeta>,
    pub fetched_at: Timestamp,
}

/// A message from the poller to the dashboard.
#[derive(Debug)]
pub enum PollerEvent {
    Snapshot(Snapshot),
    Error(String),
}

/// Converts the endpoints of a listing, keeping their order.
pub fn endpoints_from(items: Option<Vec<GetWebhookEndpointDto>>) -> (r: Vec<Endpoint>)
    ensures
        match items {
            Some(v) => r@.len() == v@.len() && forall|i: int|
                0 <= i < v@.len() ==> endpoint_from_dto(#[trigger] r@[i], v@[i]),
            None => r@.len() == 0,
        },
{
    match items {
        None => Vec::new(),
        Some(v) => {
            let ghost orig = v@;
            let mut rest = v;
            let mut rev: Vec<Endpoint> = Vec::new();
            while rest.len() > 0
                invariant
                    rest@ == orig.take(rest@.len() as int),
                    rest@.len() <= orig.len(),
                    rev@.len() == orig.len() - rest@.len(),
                    forall|j: int|
                        0 <= j < rev@.len() ==> endpoint_from_dto(
                            #[trigger] rev@[j],
                            orig[orig.len() - 1 - j],
                        ),
                decreases rest@.len(),
            {
                let d = rest.pop().unwrap();
                rev.push(Endpoint::from(d));
                assert(rest@ =~= orig.take(rest@.len() as int));
            }
            let r = reverse_vec(rev);
            assert forall|i: int| 0 <= i < orig.len() implies endpoint_from_dto(
                #[trigger] r@[i],
                orig[i],
            ) by {
                assert(r@[i] == rev@[rev@.len() - 1 - i]);
            }
            r
        },
    }
}

/// Converts the delivery logs of a listing, keeping their order.
pub fn logs_from(items: Option<Vec<DeliveryLogSummaryDto>>) -> (r: Vec<DeliveryLog>)
    ensures
        match items {
            Some(v) => r@.len() == v@.len() && forall|i: int|
                0 <= i < v@.len() ==> log_from_dto(#[trigger] r@[i], v@[i]),
            None => r@.len() == 0,
        },
{
    match items {
        None => Vec::new(),
        Some(v) => {
            let ghost orig = v@;
            let mut rest = v;
            let mut rev: Vec<DeliveryLog> = Vec::new();
            while rest.len() > 0
                invariant
                    rest@ == orig.take(rest@.len() as int),
                    rest@.len() <= orig.len(),
                    rev@.len() == orig.len() - rest@.len(),
                    forall|j: int|
                        0 <= j < rev@.len() ==> log_from_dto(
                            #[trigger] rev@[j],
                            orig[orig.len() - 1 - j],
                        ),
                decreases rest@.len(),
            {
                let d = rest.pop().unwrap();
                rev.push(DeliveryLog::from(d));
                assert(rest@ =~= orig.take(rest@.len() as int));
            }
            let r = reverse_vec(rev);
            assert forall|i: int| 0 <= i < orig.len() implies log_from_dto(
                #[trigger] r@[i],
                orig[i],
            ) by {
                assert(r@[i] == rev@[rev@.len() - 1 - i]);
            }
            r
        },
    }
}

/// Converts the event-type catalog, keeping its order.
pub fn event_types_from(list: ListEventTypesDto) -> (r: Vec<EventTypeMeta>)
    ensures
        match list.items {
            Some(v) => r@.len() == v@.len() && forall|i: int|
                0 <= i < v@.len() ==> event_type_from_dto(#[trigger] r@[i], v@[i]),
            None => r@.len() == 0,
        },
{
    match list.items {
        None => Vec::new(),
        Some(v) => {
            let ghost orig = v@;
            let mut rest = v;
            let mut rev: Vec<EventTypeMeta> = Vec::new();
            while rest.len() > 0
                invariant
                    rest@ == orig.take(rest@.len() as int),
                    rest@.len() <= orig.len(),
                    rev@.len() == orig.len() - rest@.len(),
                    forall|j: int|
                        0 <= j < rev@.len() ==> event_type_from_dto(
                            #[trigger] rev@[j],
                            orig[orig.len() - 1 - j],
                        ),
                decreases rest@.len(),
            {
                let d = rest.pop().unwrap();
                rev.push(EventTypeMeta::from(d));
                assert(rest@ =~= orig.take(rest@.len() as int));
            }
            let r = reverse_vec(rev);
            assert forall|i: int| 0 <= i < orig.len() implies event_type_from_dto(
                #[trigger] r@[i],
                orig[i],
            ) by {
                assert(r@[i] == rev@[rev@.len() - 1 - i]);
            }
            r
        },
    }
}

/// The snapshot of one successful poll: both listings converted, in order,
/// with the event-type catalog fetched once at start-up.
pub fn build_snapshot(
    endpoints: Option<Vec<GetWebhookEndpointDto>>,
    logs: Option<Vec<DeliveryLogSummaryDto>>,
    event_types: Vec<EventTypeMeta>,
    fetched_at: Timestamp,
) -> (s: Snapshot)
    ensures
        match endpoints {
            Some(v) => s.endpoints@.len() == v@.len() && forall|i: int|
                0 <= i < v@.len() ==> endpoint_from_dto(#[trigger] s.endpoints@[i], v@[i]),
            None => s.endpoints@.len() == 0,
        },
        match logs {
            Some(v) => s.logs@.len() == v@.len() && forall|i: int|
                0 <= i < v@.len() ==> log_from_dto(#[trigger] s.logs@[i], v@[i]),
            None => s.logs@.len() == 0,
        },
        s.event_types == event_types,
        s.fetched_at == fetched_at,
{
    Snapshot {
        endpoints: endpoints_from(endpoints),
        logs: logs_from(logs),
        event_types,
        fetched_at,
    }
}


/// The message of a failed poll: which listing failed (`stage`) and why.
pub fn poll_failure_message(stage: &str, reason: &str) -> (r: String)
    ensures
        r@ == stage@ + ": "@ + reason@,
{
    let mut s = String::from_str(stage);
    s.append(": ");
    s.append(reason);
    s
}

} // verus!
