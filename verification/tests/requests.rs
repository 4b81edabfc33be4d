use httpkit::error::HttpError;
use httpkit::http_method::HttpMethod;
use httpkit::http_request::{HttpRequest, RetryPolicy};
use httpkit::http_url::HttpUrl;

#[test]
fn a_new_request_carries_its_method_and_path() {
    let request = HttpRequest::new(HttpMethod::Get, "users/42").unwrap();
    assert_eq!(request.get_method(), "GET");
    assert_eq!(request.path.as_deref(), Some("users/42"));
    assert!(request.query_params.is_none());
    assert!(request.json_body.is_none());
    assert!(request.retry_policy.is_none());
    assert!(request.body.is_none());
}

#[test]
fn builders_set_their_fields() {
    let policy = RetryPolicy { max_attempts: 5, backoff_millis: 7 };
    let request = HttpRequest::new(HttpMethod::Post, "a").unwrap()
        .with_path("b/c")
        .with_query_params(vec![("k".to_string(), "v".to_string())])
        .with_json_body(serde_json::Value::Bool(true))
        .with_retry_policy(policy);
    assert_eq!(request.path.as_deref(), Some("b/c"));
    assert_eq!(request.query_params.as_deref(), Some(&[("k".to_string(), "v".to_string())][..]));
    assert_eq!(request.json_body, Some(serde_json::Value::Bool(true)));
    assert_eq!(request.retry_policy, Some(policy));
}

#[test]
fn add_header_accepts_a_valid_pair() {
    let mut request = HttpRequest::new(HttpMethod::Get, "x").unwrap();
    request.add_header("authorization", "Bearer SECRET-REDACTED").unwrap();
    assert_eq!(request.headers.get("authorization").unwrap(), "Bearer SECRET-REDACTED");
}

#[test]
fn add_header_rejects_an_invalid_name() {
    let mut request = HttpRequest::new(HttpMethod::Get, "x").unwrap();
    let error = request.add_header("bad name", "v").unwrap_err();
    assert!(matches!(error, HttpError::Custom(_)));
    assert!(request.headers.get("bad name").is_none());
}

#[test]
fn add_header_rejects_an_invalid_value() {
    let mut request = HttpRequest::new(HttpMethod::Get, "x").unwrap();
    let error = request.add_header("x-note", "line\nbreak").unwrap_err();
    assert!(matches!(error, HttpError::Custom(_)));
    assert!(request.headers.get("x-note").is_none());
}

#[test]
fn set_url_replaces_the_placeholder() {
    let mut request = HttpRequest::new(HttpMethod::Get, "x").unwrap();
    request.set_url(HttpUrl::parse("https://example.net/y").unwrap());
    assert_eq!(request.get_url_path(), "/y");
}

#[test]
fn apply_query_params_appends_onto_the_current_url() {
    let mut request = HttpRequest::new(HttpMethod::Get, "x").unwrap()
        .with_query_params(vec![("active".to_string(), "true".to_string())]);
    request.set_url(HttpUrl::parse("https://api.example.com/v1/users/42").unwrap());
    request.apply_query_params();
    assert_eq!(request.url.as_str(), "https://api.example.com/v1/users/42?active=true");
}

#[test]
fn apply_query_params_without_params_changes_nothing() {
    let mut request = HttpRequest::new(HttpMethod::Get, "x").unwrap();
    request.set_url(HttpUrl::parse("https://api.example.com/v1/").unwrap());
    request.apply_query_params();
    assert_eq!(request.url.as_str(), "https://api.example.com/v1/");
}

#[test]
fn apply_json_body_serializes_once_and_sets_content_type() {
    let value: serde_json::Value = serde_json::from_str("{\"a\":1}").unwrap();
    let mut request = HttpRequest::new(HttpMethod::Post, "x").unwrap().with_json_body(value);
    request.apply_json_body();
    assert_eq!(request.body.as_deref(), Some("{\"a\":1}"));
    assert_eq!(request.headers.get("content-type").unwrap(), "application/json");
}

#[test]
fn apply_json_body_overwrites_a_prior_content_type() {
    let mut request = HttpRequest::new(HttpMethod::Post, "x").unwrap()
        .with_json_body(serde_json::Value::Null);
    request.add_header("content-type", "text/plain").unwrap();
    request.apply_json_body();
    assert_eq!(request.headers.get("content-type").unwrap(), "application/json");
    assert_eq!(request.body.as_deref(), Some("null"));
}

#[test]
fn effective_policy_prefers_the_request_policy() {
    let request_policy = Some(RetryPolicy { max_attempts: 4, backoff_millis: 2 });
    let default_policy = Some(RetryPolicy { max_attempts: 9, backoff_millis: 8 });
    let effective = RetryPolicy::effective(&request_policy, &default_policy);
    assert_eq!(effective, RetryPolicy { max_attempts: 4, backoff_millis: 2 });
}

#[test]
fn effective_policy_falls_back_to_the_default_then_to_one_attempt() {
    let default_policy = Some(RetryPolicy { max_attempts: 9, backoff_millis: 8 });
    assert_eq!(
        RetryPolicy::effective(&None, &default_policy),
        RetryPolicy { max_attempts: 9, backoff_millis: 8 }
    );
    assert_eq!(
        RetryPolicy::effective(&None, &None),
        RetryPolicy { max_attempts: 1, backoff_millis: 0 }
    );
}

#[test]
fn effective_policy_raises_zero_attempts_to_one() {
    let request_policy = Some(RetryPolicy { max_attempts: 0, backoff_millis: 5 });
    let effective = RetryPolicy::effective(&request_policy, &None);
    assert_eq!(effective, RetryPolicy { max_attempts: 1, backoff_millis: 5 });
}
