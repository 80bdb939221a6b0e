//! Where each API call goes, and the request rules shared by all calls.

use vstd::prelude::*;
use vstd::string::StringExecFns;
use crate::text::{decimal, u64_to_decimal};

verus! {

/// Collection of webhook endpoints.
pub const ENDPOINTS_PATH: &'static str = "/v2/webhooks/endpoints";

/// Catalog of event types.
pub const EVENT_TYPES_PATH: &'static str = "/v2/webhooks/event-types";

/// Collection of delivery logs.
pub const DELIVERY_LOGS_PATH: &'static str = "/v2/webhooks/delivery-logs";

/// Query of the endpoint list: the whole first page the server allows.
pub const ENDPOINTS_QUERY: &'static str = "?pageSize=100";

/// The HTTP methods the client uses.
#[derive(Clone, Copy, Debug, PartialEq, Eq, Structural)]
pub enum HttpMethod {
    Get,
    Post,
    Put,
    Patch,
    Delete,
}

/// `base` followed by `path`.
pub fn request_url(base: &str, path: &str) -> (r: String)
    ensures
        r@ == base@ + path@,
{
    let mut s = String::from_str(base);
    s.append(path);
    s
}

/// `prefix/id` followed by `suffix`.
fn item_path(prefix: &str, id: &str, suffix: &str) -> (r: String)
    ensures
        r@ == prefix@ + "/"@ + id@ + suffix@,
{
    let mut s = String::from_str(prefix);
    s.append("/");
    s.append(id);
    s.append(suffix);
    s
}

/// The endpoint `id`.
pub fn endpoint_path(id: &str) -> (r: String)
    ensures
        r@ == ENDPOINTS_PATH@ + "/"@ + id@,
{
    let r = item_path(ENDPOINTS_PATH, id, "");
    proof {
        reveal_strlit("");
        assert(r@ =~= ENDPOINTS_PATH@ + "/"@ + id@);
    }
    r
}

/// The ping of endpoint `id`.
pub fn ping_path(id: &str) -> (r: String)
    ensures
        r@ == ENDPOINTS_PATH@ + "/"@ + id@ + "/ping"@,
{
    item_path(ENDPOINTS_PATH, id, "/ping")
}

/// The delivery log `id`.
pub fn delivery_log_path(id: &str) -> (r: String)
    ensures
        r@ == DELIVERY_LOGS_PATH@ + "/"@ + id@,
{
    let r = item_path(DELIVERY_LOGS_PATH, id, "");
    proof {
        reveal_strlit("");
        assert(r@ =~= DELIVERY_LOGS_PATH@ + "/"@ + id@);
    }
    r
}

/// The retry of delivery `id`.
pub fn retry_path(id: &str) -> (r: String)
    ensures
        r@ == DELIVERY_LOGS_PATH@ + "/"@ + id@ + "/retry"@,
{
    item_path(DELIVERY_LOGS_PATH, id, "/retry")
}

/// The query of a delivery-log page of `limit` rows.
pub fn page_query(limit: u32) -> (r: String)
    ensures
        r@ == "?pageSize="@ + decimal(limit as nat),
{
    let mut s = String::from_str("?pageSize=");
    let n = u64_to_decimal(limit as u64);
    s.append(n.as_str());
    s
}

/// Whether a request without a JSON body must still send an empty body
/// with `Content-Length: 0` (the API refuses bodyless POST, PUT and PATCH).
pub open spec fn needs_empty_body(m: HttpMethod) -> bool {
    m == HttpMethod::Post || m == HttpMethod::Put || m == HttpMethod::Patch
}

/// Whether a request without a JSON body sends an empty one.
pub fn sends_empty_body(m: HttpMethod) -> (r: bool)
    ensures
        r == needs_empty_body(m),
{
    match m {
        HttpMethod::Post | HttpMethod::Put | HttpMethod::Patch => true,
        _ => false,
    }
}

/// HTTP status 401: the cached token is dropped and the request is sent
/// once more with a fresh one.
pub const UNAUTHORIZED: u16 = 401;

/// Whether a response with `status` is answered by refreshing the token and
/// retrying (only on the first attempt: a request is retried at most once).
pub fn retry_with_fresh_token(status: u16, first_attempt: bool) -> (r: bool)
    ensures
        r == (status == UNAUTHORIZED && first_attempt),
{
    status == UNAUTHORIZED && first_attempt
}

/// Whether `status` is a success (2xx).
pub fn is_success(status: u16) -> (r: bool)
    ensures
        r == (200 <= status < 300),
{
    200 <= status && status < 300
}

} // verus!
