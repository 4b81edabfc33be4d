use httpkit::error::HttpError;
use httpkit::http_response::{HttpResponse, TransportReply};
use httpkit::http_status_code::HttpStatusCode;

fn reply(status: u16, body: &[u8]) -> TransportReply {
    TransportReply {
        status,
        url: "https://api.example.com/v1/users/42".to_string(),
        body: body.to_vec(),
    }
}

#[test]
fn status_can_be_read_any_number_of_times() {
    let response = HttpResponse::new(reply(200, b"{}"));
    assert!(matches!(response.status(), HttpStatusCode::Okay));
    assert!(response.status().is_success());
    assert_eq!(response.status().as_u16(), 200);
}

#[test]
fn a_non_standard_status_is_wrapped_not_rejected() {
    let response = HttpResponse::new(reply(999, b""));
    assert!(matches!(response.status(), HttpStatusCode::Custom(999)));
}

#[test]
fn json_decodes_the_body() {
    let response = HttpResponse::new(reply(200, b"{\"a\":1}"));
    let value = response.json().unwrap();
    let expected: serde_json::Value = serde_json::from_str("{\"a\":1}").unwrap();
    assert_eq!(value, expected);
}

#[test]
fn json_failure_names_url_status_and_body() {
    let response = HttpResponse::new(reply(502, b"<html>bad gateway</html>"));
    let error = response.json().unwrap_err();
    match error {
        HttpError::Custom(message) => {
            assert!(message.contains("https://api.example.com/v1/users/42"));
            assert!(message.contains("502"));
            assert!(message.contains("<html>bad gateway</html>"));
        }
        other => panic!("expected a decode diagnostic, got {:?}", other),
    }
}

#[test]
fn json_bytes_returns_the_raw_body() {
    let response = HttpResponse::new(reply(200, b"\x00\x01\x02"));
    assert_eq!(response.json_bytes().unwrap(), vec![0u8, 1, 2]);
}

#[test]
fn text_decodes_utf8_and_replaces_bad_bytes() {
    let response = HttpResponse::new(reply(200, b"hello"));
    assert_eq!(response.text().unwrap(), "hello");
    let response = HttpResponse::new(reply(200, b"a\xffb"));
    assert_eq!(response.text().unwrap(), "a\u{fffd}b");
}

#[test]
fn into_inner_hands_the_reply_back() {
    let response = HttpResponse::new(reply(201, b"x"));
    let inner = response.into_inner();
    assert_eq!(inner.status, 201);
    assert_eq!(inner.body, b"x".to_vec());
}
