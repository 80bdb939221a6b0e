//! The dashboard's own view of endpoints, delivery attempts and event types,
//! built from the API's wire types.

use vstd::prelude::*;
use crate::api::models::{
    DeliveryLogSummaryDto, EventTypeDto, GetWebhookEndpointDto, WebhookDeliveryLogStatus,
    WebhookEndpointStatus,
};
use crate::text::{text_or, texts_or_empty};
use crate::time::Timestamp;

verus! {

/// A webhook endpoint as the dashboard shows it.
#[derive(Debug, Clone)]
pub struct Endpoint {
    pub id: String,
    pub name: String,
    pub endpoint_url: String,
    pub event_types: Vec<String>,
    pub status: WebhookEndpointStatus,
    pub created_on: Option<Timestamp>,
}

/// `e` is what [`Endpoint::from`] makes of `d`: a missing name reads
/// `Untitled`, a missing URL or event list is empty.
pub open spec fn endpoint_from_dto(e: Endpoint, d: GetWebhookEndpointDto) -> bool {
    &&& e.id@ == d.id@
    &&& e.name@ == text_or(d.name, "Untitled"@)
    &&& e.endpoint_url@ == text_or(d.endpoint_url, Seq::empty())
    &&& e.event_types.deep_view() == texts_or_empty(d.event_types)
    &&& e.status == d.status
    &&& e.created_on == d.created_on
}

impl Endpoint {
    /// Converts a wire endpoint.
    pub fn from(d: GetWebhookEndpointDto) -> (e: Self)
        ensures
            endpoint_from_dto(e, d),
    {
        Endpoint {
            id: d.id,
            name: match d.name {
                Some(n) => n,
                None => String::from_str("Untitled"),
            },
            endpoint_url: match d.endpoint_url {
                Some(u) => u,
                None => String::new(),
            },
            event_types: match d.event_types {
                Some(v) => v,
                None => {
                    let v: Vec<String> = Vec::new();
                    assert(v.deep_view() =~= Seq::<Seq<char>>::empty());
                    v
                },
            },
            status: d.status,
            created_on: d.created_on,
        }
    }
}

/// A delivery attempt as the dashboard shows it.
#[derive(Debug, Clone)]
pub struct DeliveryLog {
    pub id: String,
    pub endpoint_id: String,
    pub endpoint_name: String,
    pub endpoint_url: String,
    pub event_id: String,
    pub event_type: String,
    pub status: WebhookDeliveryLogStatus,
    pub attempt_number: i32,
    pub response_status_code: Option<i32>,
    pub duration_ms: i32,
    pub error_message: Option<String>,
    pub created_on: Timestamp,
}

/// `l` is what [`DeliveryLog::from`] makes of `d`: missing texts are empty.
pub open spec fn log_from_dto(l: DeliveryLog, d: DeliveryLogSummaryDto) -> bool {
    &&& l.id@ == d.id@
    &&& l.endpoint_id@ == d.webhook_endpoint_id@
    &&& l.endpoint_name@ == text_or(d.webhook_name, Seq::empty())
    &&& l.endpoint_url@ == text_or(d.endpoint_url, Seq::empty())
    &&& l.event_id@ == d.event_id@
    &&& l.event_type@ == text_or(d.event_type, Seq::empty())
    &&& l.status == d.status
    &&& l.attempt_number == d.attempt_number
    &&& l.response_status_code == d.response_status_code
    &&& l.duration_ms == d.duration_ms
    &&& l.error_message.deep_view() == d.error_message.deep_view()
    &&& l.created_on == d.created_on
}

impl DeliveryLog {
    /// Converts a wire delivery-log summary.
    pub fn from(d: DeliveryLogSummaryDto) -> (l: Self)
        ensures
            log_from_dto(l, d),
    {
        DeliveryLog {
            id: d.id,
            endpoint_id: d.webhook_endpoint_id,
            endpoint_name: match d.webhook_name {
                Some(n) => n,
                None => String::new(),
            },
            endpoint_url: match d.endpoint_url {
                Some(u) => u,
                None => String::new(),
            },
            event_id: d.event_id,
            event_type: match d.event_type {
                Some(t) => t,
                None => String::new(),
            },
            status: d.status,
            attempt_number: d.attempt_number,
            response_status_code: d.response_status_code,
            duration_ms: d.duration_ms,
            error_message: d.error_message,
            created_on: d.created_on,
        }
    }
}

/// An entry of the event-type catalog as the dashboard shows it.
#[derive(Debug, Clone)]
pub struct EventTypeMeta {
    pub name: String,
    pub description: String,
    pub group: String,
}

/// `m` is what [`EventTypeMeta::from`] makes of `d`: a missing group reads
/// `Other`, other missing texts are empty.
pub open spec fn event_type_from_dto(m: EventTypeMeta, d: EventTypeDto) -> bool {
    &&& m.name@ == text_or(d.name, Seq::empty())
    &&& m.description@ == text_or(d.description, Seq::empty())
    &&& m.group@ == text_or(d.group, "Other"@)
}

impl EventTypeMeta {
    /// Converts a wire event type.
    pub fn from(d: EventTypeDto) -> (m: Self)
        ensures
            event_type_from_dto(m, d),
    {
        EventTypeMeta {
            name: match d.name {
                Some(n) => n,
                None => String::new(),
            },
            description: match d.description {
                Some(t) => t,
                None => String::new(),
            },
            group: match d.group {
                Some(g) => g,
                None => String::from_str("Other"),
            },
        }
    }
}

} // verus!
