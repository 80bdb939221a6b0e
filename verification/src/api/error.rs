//! Errors of API calls, and the reading of the API's error bodies.

use vstd::prelude::*;
use vstd::string::StringExecFns;
use crate::text::{decimal, u64_to_decimal};

verus! {

/// Why an API call failed.
#[derive(Debug)]
pub enum ApiError {
    /// The request never got a response (connection, TLS, DNS); holds the
    /// transport's description.
    Transport(String),
    /// The API answered with a non-success status.
    Api { status: u16, correlation_id: Option<String>, message: String },
    /// No bearer token could be obtained.
    Auth(String),
    /// A request could not be encoded or a response not decoded.
    Decode(String),
}

/// The fields of an ASP.NET-style error body (camelCase or PascalCase).
#[derive(Debug)]
pub struct AspNetError {
    pub details: Option<String>,
    pub title: Option<String>,
    pub correlation_id: Option<String>,
    pub error_code: Option<String>,
    pub exception_type: Option<String>,
}

/// The text of an optional field, when present and not empty.
pub open spec fn non_empty(o: Option<String>) -> Option<Seq<char>> {
    match o {
        Some(s) => if s@.len() > 0 { Some(s@) } else { None },
        None => None,
    }
}

/// Message built from a parsed error body: `title: details` (or whichever
/// of the two is present, or the raw body when neither is), followed by
/// ` [ExceptionType]` when the exception type is present.
pub open spec fn aspnet_message(body: Seq<char>, e: AspNetError) -> Seq<char> {
    let core = match (non_empty(e.title), non_empty(e.details)) {
        (Some(t), Some(d)) => t + ": "@ + d,
        (Some(t), None) => t,
        (None, Some(d)) => d,
        (None, None) => body,
    };
    match non_empty(e.exception_type) {
        Some(et) => core + " ["@ + et + "]"@,
        None => core,
    }
}

fn non_empty_text(o: &Option<String>) -> (r: Option<&str>)
    ensures
        match r {
            Some(s) => non_empty(*o) == Some(s@),
            None => non_empty(*o) is None,
        },
{
    match o {
        Some(s) => {
            if s.as_str().unicode_len() > 0 {
                Some(s.as_str())
            } else {
                None
            }
        },
        None => None,
    }
}

/// Builds the error for a non-success `status` whose body was `body`;
/// `parsed` is that body read as an ASP.NET error, when it is one.
pub fn from_aspnet(status: u16, body: &str, parsed: Option<AspNetError>) -> (r: ApiError)
    ensures
        r is Api,
        r->status == status,
        match parsed {
            Some(e) => r->correlation_id.deep_view() == e.correlation_id.deep_view()
                && r->message@ == aspnet_message(body@, e),
            None => r->correlation_id is None && r->message@ == body@,
        },
{
    match parsed {
        Some(e) => {
            let title = non_empty_text(&e.title);
            let details = non_empty_text(&e.details);
            let exception = non_empty_text(&e.exception_type);
            let mut message = match (title, details) {
                (Some(t), Some(d)) => {
                    let mut m = t.to_owned();
                    m.append(": ");
                    m.append(d);
                    m
                },
                (Some(t), None) => t.to_owned(),
                (None, Some(d)) => d.to_owned(),
                (None, None) => body.to_owned(),
            };
            match exception {
                Some(et) => {
                    message.append(" [");
                    message.append(et);
                    message.append("]");
                },
                None => {},
            }
            ApiError::Api { status, correlation_id: e.correlation_id, message }
        },
        None => ApiError::Api { status, correlation_id: None, message: body.to_owned() },
    }
}


/// How Rust's `Debug` renders an optional string (`None`, or `Some("…")`
/// with the text quoted and escaped).
pub uninterp spec fn debug_rendering(o: Option<Seq<char>>) -> Seq<char>;

/// `format!("{:?}", o)`. The contract names the result; it depends on the
/// text alone.
#[verifier::external_body]
fn debug_opt_string(o: &Option<String>) -> (r: String)
    ensures
        r@ == debug_rendering(o.deep_view()),
{
    format!("{:?}", o)
}

/// The message of an error, as shown to the user.
pub open spec fn api_error_text(e: ApiError) -> Seq<char> {
    match e {
        ApiError::Transport(t) => "transport error: "@ + t@,
        ApiError::Api { status, correlation_id, message } => "API "@ + decimal(status as nat)
            + " (correlation_id="@ + debug_rendering(correlation_id.deep_view()) + "): "@
            + message@,
        ApiError::Auth(m) => "auth error: "@ + m@,
        ApiError::Decode(m) => "invalid response: "@ + m@,
    }
}

impl ApiError {
    /// The message shown to the user (see [`api_error_text`]).
    pub fn to_text(&self) -> (r: String)
        ensures
            r@ == api_error_text(*self),
    {
        match self {
            ApiError::Transport(t) => {
                let mut s = String::from_str("transport error: ");
                s.append(t.as_str());
                s
            },
            ApiError::Api { status, correlation_id, message } => {
                let mut s = String::from_str("API ");
                let code = u64_to_decimal(*status as u64);
                s.append(code.as_str());
                s.append(" (correlation_id=");
                let c = debug_opt_string(correlation_id);
                s.append(c.as_str());
                s.append("): ");
                s.append(message.as_str());
                s
            },
            ApiError::Auth(m) => {
                let mut s = String::from_str("auth error: ");
                s.append(m.as_str());
                s
            },
            ApiError::Decode(m) => {
                let mut s = String::from_str("invalid response: ");
                s.append(m.as_str());
                s
            },
        }
    }
}

} // verus!
