//! Request and response bodies of the webhook API (v2), as plain values.

use vstd::prelude::*;
use crate::time::Timestamp;

verus! {

/// Whether an endpoint receives deliveries.
#[derive(Debug, Clone, Copy, PartialEq, Eq, Structural)]
pub enum WebhookEndpointStatus {
    Active,
    Inactive,
}

/// Outcome of one delivery attempt.
#[derive(Debug, Clone, Copy, PartialEq, Eq, Structural)]
pub enum WebhookDeliveryLogStatus {
    Success,
    Failure,
    /// A retry that has been scheduled but not yet attempted.
    Pending,
}

/// Pagination metadata that accompanies `items` in every paged response.
#[derive(Debug, Clone, Copy, PartialEq, Eq, Structural)]
pub struct PageInfo {
    pub page_index: i32,
    pub page_size: i32,
    pub total_items: i32,
    pub total_pages: i32,
    pub has_more: bool,
}

/// Paged response envelope: `items` may be absent; `page_info` is always there.
#[derive(Debug, Clone)]
pub struct PagedResponse<T> {
    pub items: Option<Vec<T>>,
    pub page_info: PageInfo,
}

/// One webhook endpoint as the API returns it.
#[derive(Debug, Clone)]
pub struct GetWebhookEndpointDto {
    pub id: String,
    pub name: Option<String>,
    pub endpoint_url: Option<String>,
    pub status: WebhookEndpointStatus,
    pub event_types: Option<Vec<String>>,
    pub created_on: Option<Timestamp>,
    pub modified_on: Option<Timestamp>,
}

/// Endpoints list response.
pub type ListWebhookEndpointsDto = PagedResponse<GetWebhookEndpointDto>;

/// Body of an endpoint-creation request.
#[derive(Debug, Clone)]
pub struct CreateWebhookEndpointRequest {
    pub name: String,
    pub endpoint_url: String,
    pub event_types: Vec<String>,
}

/// Response to an endpoint creation; `hmac_secret` is only ever returned here.
#[derive(Debug, Clone)]
pub struct CreateWebhookEndpointResponse {
    pub id: String,
    pub name: Option<String>,
    pub endpoint_url: Option<String>,
    pub status: WebhookEndpointStatus,
    pub hmac_secret: Option<String>,
    pub event_types: Option<Vec<String>>,
    pub created_on: Option<Timestamp>,
}

/// Body of an endpoint-update request (every field is sent).
#[derive(Debug, Clone)]
pub struct UpdateWebhookEndpointRequest {
    pub name: String,
    pub endpoint_url: String,
    pub status: WebhookEndpointStatus,
    pub event_types: Vec<String>,
}

/// One entry of the event-type catalog.
#[derive(Debug, Clone)]
pub struct EventTypeDto {
    pub name: Option<String>,
    pub description: Option<String>,
    pub group: Option<String>,
}

/// Event-type catalog response (not paged).
#[derive(Debug, Clone)]
pub struct ListEventTypesDto {
    pub items: Option<Vec<EventTypeDto>>,
}

/// One delivery attempt in a delivery-log listing.
#[derive(Debug, Clone)]
pub struct DeliveryLogSummaryDto {
    pub id: String,
    pub webhook_endpoint_id: String,
    pub webhook_name: Option<String>,
    pub endpoint_url: Option<String>,
    pub event_id: String,
    pub event_type: Option<String>,
    pub attempt_number: i32,
    pub status: WebhookDeliveryLogStatus,
    pub response_status_code: Option<i32>,
    pub duration_ms: i32,
    pub error_message: Option<String>,
    pub created_on: Timestamp,
}

/// One delivery attempt with its full request and response. Header maps are
/// held as (name, value) pairs.
#[derive(Debug, Clone)]
pub struct DeliveryLogDetailDto {
    pub id: String,
    pub webhook_endpoint_id: String,
    pub webhook_name: Option<String>,
    pub endpoint_url: Option<String>,
    pub event_id: String,
    pub event_type: Option<String>,
    pub attempt_number: i32,
    pub status: WebhookDeliveryLogStatus,
    pub response_status_code: Option<i32>,
    pub duration_ms: i32,
    pub error_message: Option<String>,
    pub created_on: Timestamp,
    pub request_headers: Option<Vec<(String, Option<String>)>>,
    pub request_body: Option<String>,
    pub response_headers: Option<Vec<(String, Option<String>)>>,
    pub response_body: Option<String>,
    pub next_retry_at: Option<Timestamp>,
}

/// Delivery-logs list response.
pub type ListDeliveryLogsDto = PagedResponse<DeliveryLogSummaryDto>;

/// Result of pinging an endpoint.
#[derive(Debug, Clone)]
pub struct PingResponseDto {
    pub success: bool,
    pub status_code: Option<i32>,
    pub duration_ms: i32,
    pub error_message: Option<String>,
}

/// Display name of an endpoint status.
pub open spec fn endpoint_status_name(s: WebhookEndpointStatus) -> Seq<char> {
    match s {
        WebhookEndpointStatus::Active => "Active"@,
        WebhookEndpointStatus::Inactive => "Inactive"@,
    }
}

/// `"Active"` or `"Inactive"`.
pub fn endpoint_status_text(s: WebhookEndpointStatus) -> (r: &'static str)
    ensures
        r@ == endpoint_status_name(s),
{
    match s {
        WebhookEndpointStatus::Active => "Active",
        WebhookEndpointStatus::Inactive => "Inactive",
    }
}

/// Name of a delivery status as the API spells it.
pub open spec fn delivery_status_name(s: WebhookDeliveryLogStatus) -> Seq<char> {
    match s {
        WebhookDeliveryLogStatus::Success => "Success"@,
        WebhookDeliveryLogStatus::Failure => "Failure"@,
        WebhookDeliveryLogStatus::Pending => "Pending"@,
    }
}

/// `"Success"`, `"Failure"` or `"Pending"`.
pub fn delivery_status_text(s: WebhookDeliveryLogStatus) -> (r: &'static str)
    ensures
        r@ == delivery_status_name(s),
{
    match s {
        WebhookDeliveryLogStatus::Success => "Success",
        WebhookDeliveryLogStatus::Failure => "Failure",
        WebhookDeliveryLogStatus::Pending => "Pending",
    }
}

} // verus!
