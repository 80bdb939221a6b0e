use flute_webhooks_cli::api::error::{from_aspnet, ApiError, AspNetError};
use flute_webhooks_cli::api::json::{redact_json_value, JsonValue};
use flute_webhooks_cli::api::routes::{
    delivery_log_path, endpoint_path, page_query, ping_path, request_url, retry_path,
    retry_with_fresh_token, sends_empty_body, HttpMethod,
};

fn aspnet(details: Option<&str>, title: Option<&str>, correlation: Option<&str>, exception: Option<&str>) -> AspNetError {
    AspNetError {
        details: details.map(String::from),
        title: title.map(String::from),
        correlation_id: correlation.map(String::from),
        error_code: None,
        exception_type: exception.map(String::from),
    }
}

#[test]
fn message_combines_title_and_details() {
    let body = r#"{"details":"X","title":"Validation failed","statusCode":400,"correlationId":"abc-123","errorCode":"V0000"}"#;
    let parsed = aspnet(Some("X"), Some("Validation failed"), Some("abc-123"), None);
    match from_aspnet(400, body, Some(parsed)) {
        ApiError::Api { status, correlation_id, message } => {
            assert_eq!(status, 400);
            assert_eq!(correlation_id.as_deref(), Some("abc-123"));
            assert_eq!(message, "Validation failed: X");
        }
        _ => panic!("expected Api"),
    }
}

#[test]
fn message_uses_details_when_title_missing() {
    let body = r#"{"details":"X","correlationId":"abc-123"}"#;
    let parsed = aspnet(Some("X"), None, Some("abc-123"), None);
    match from_aspnet(400, body, Some(parsed)) {
        ApiError::Api { message, .. } => assert_eq!(message, "X"),
        _ => panic!(),
    }
}

#[test]
fn falls_back_when_body_is_not_aspnet() {
    match from_aspnet(500, "oops", None) {
        ApiError::Api { status, correlation_id, message } => {
            assert_eq!(status, 500);
            assert!(correlation_id.is_none());
            assert_eq!(message, "oops");
        }
        _ => panic!(),
    }
}

#[test]
fn pascal_case_500_surfaces_full_message_with_exception_type() {
    let body = r#"{"Details":"Value cannot be null. (Parameter 'uriString')","StatusCode":500,"Source":"IsvApiBff","ExceptionType":"ArgumentNullException","CorrelationId":"45d859f6-dc38-4d8f-8bab-ae4e20036919","ErrorCode":"I0000","Title":"Internal server error"}"#;
    let parsed = aspnet(
        Some("Value cannot be null. (Parameter 'uriString')"),
        Some("Internal server error"),
        Some("45d859f6-dc38-4d8f-8bab-ae4e20036919"),
        Some("ArgumentNullException"),
    );
    match from_aspnet(500, body, Some(parsed)) {
        ApiError::Api { status, correlation_id, message } => {
            assert_eq!(status, 500);
            assert_eq!(
                correlation_id.as_deref(),
                Some("45d859f6-dc38-4d8f-8bab-ae4e20036919")
            );
            assert_eq!(
                message,
                "Internal server error: Value cannot be null. (Parameter 'uriString') [ArgumentNullException]"
            );
        }
        _ => panic!("expected Api"),
    }
}

#[test]
fn api_error_text_matches_display_format() {
    let e = ApiError::Api {
        status: 404,
        correlation_id: Some("c-1".into()),
        message: "Not found".into(),
    };
    assert_eq!(e.to_text(), r#"API 404 (correlation_id=Some("c-1")): Not found"#);
    assert_eq!(ApiError::Auth("x".into()).to_text(), "auth error: x");
    assert_eq!(ApiError::Decode("y".into()).to_text(), "invalid response: y");
    assert_eq!(ApiError::Transport("z".into()).to_text(), "transport error: z");
}

fn s(x: &str) -> JsonValue {
    JsonValue::Str(x.into())
}

fn obj(members: Vec<(&str, JsonValue)>) -> JsonValue {
    JsonValue::Object(members.into_iter().map(|(k, v)| (k.to_string(), v)).collect())
}

fn member<'a>(v: &'a JsonValue, key: &str) -> &'a JsonValue {
    match v {
        JsonValue::Object(ms) => &ms.iter().find(|(k, _)| k == key).unwrap().1,
        _ => panic!("not an object"),
    }
}

fn text(v: &JsonValue) -> &str {
    match v {
        JsonValue::Str(s) => s,
        _ => panic!("not a string"),
    }
}

#[test]
fn redacts_hmac_secret_field_value() {
    let mut v = obj(vec![("endpointId", s("abc")), ("hmacSecret", s("whsec_supersecret"))]);
    redact_json_value(&mut v);
    assert_eq!(text(member(&v, "hmacSecret")), "[REDACTED]");
    assert_eq!(text(member(&v, "endpointId")), "abc");
}

#[test]
fn redacts_legacy_secret_alias() {
    let mut v = obj(vec![("secret", s("whsec_old"))]);
    redact_json_value(&mut v);
    assert_eq!(text(member(&v, "secret")), "[REDACTED]");
}

#[test]
fn redacts_nested_secret_inside_array() {
    let mut v = obj(vec![(
        "items",
        JsonValue::Array(vec![obj(vec![("hmacSecret", s("a"))]), obj(vec![("hmacSecret", s("b"))])]),
    )]);
    redact_json_value(&mut v);
    match member(&v, "items") {
        JsonValue::Array(items) => {
            assert_eq!(text(member(&items[0], "hmacSecret")), "[REDACTED]");
            assert_eq!(text(member(&items[1], "hmacSecret")), "[REDACTED]");
        }
        _ => panic!("items must stay an array"),
    }
}

#[test]
fn json_without_secret_fields_is_semantically_unchanged() {
    let mut v = obj(vec![("id", s("1")), ("name", s("n")), ("nested", obj(vec![("k", s("v"))]))]);
    redact_json_value(&mut v);
    assert_eq!(text(member(&v, "id")), "1");
    assert_eq!(text(member(&v, "name")), "n");
    assert_eq!(text(member(member(&v, "nested"), "k")), "v");
}

#[test]
fn routes_and_request_rules() {
    assert_eq!(endpoint_path("e1"), "/v2/webhooks/endpoints/e1");
    assert_eq!(ping_path("e1"), "/v2/webhooks/endpoints/e1/ping");
    assert_eq!(delivery_log_path("d1"), "/v2/webhooks/delivery-logs/d1");
    assert_eq!(retry_path("d1"), "/v2/webhooks/delivery-logs/d1/retry");
    assert_eq!(page_query(500), "?pageSize=500");
    assert_eq!(request_url("https://h", "/p"), "https://h/p");
    assert!(sends_empty_body(HttpMethod::Post));
    assert!(!sends_empty_body(HttpMethod::Get));
    assert!(retry_with_fresh_token(401, true));
    assert!(!retry_with_fresh_token(401, false));
    assert!(!retry_with_fresh_token(403, true));
}
