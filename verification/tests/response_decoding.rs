//! Tests of the response decoders: lossy text and structured JSON, both
//! pure views over the raw bytes.

use reqwew::error::Error;
use reqwew::response::Response;

#[test]
fn text_decodes_plain_utf8() {
    let response = Response::from_bytes(b"hello world".to_vec());
    let text = response.text();
    assert_eq!(text, "hello world");
    assert!(text.contains("hello"));
}

#[test]
fn text_never_fails_on_arbitrary_bytes() {
    let response = Response::from_bytes(vec![0xff, 0xfe, 0x80, b'h', b'i']);
    let text = response.text();
    assert!(text.contains("hi"));
    assert!(text.contains('\u{fffd}'));
}

#[test]
fn text_of_an_empty_body_is_empty() {
    let response = Response::from_bytes(Vec::new());
    assert_eq!(response.text(), "");
}

#[test]
fn json_exposes_nested_fields() {
    let response = Response::from_bytes(br#"{"headers":{"Host":"example.com"}}"#.to_vec());
    let value = response.json().unwrap();
    assert_eq!(value["headers"]["Host"].as_str().unwrap(), "example.com");
}

#[test]
fn json_round_trip_preserves_the_value() {
    let mut headers = serde_json::Map::new();
    headers.insert(
        String::from("Host"),
        serde_json::Value::String(String::from("example.com")),
    );
    let mut root = serde_json::Map::new();
    root.insert(String::from("headers"), serde_json::Value::Object(headers));
    root.insert(String::from("attempts"), serde_json::Value::from(3u64));
    let value = serde_json::Value::Object(root);

    let encoded = serde_json::to_vec(&value).unwrap();
    let decoded = Response::from_bytes(encoded).json().unwrap();
    assert_eq!(decoded, value);
}

#[test]
fn json_rejects_bytes_that_are_no_document() {
    let response = Response::from_bytes(b"definitely not json".to_vec());
    assert!(matches!(response.json(), Err(Error::Deserialization(_))));
}

#[test]
fn json_failure_detail_renders_the_body() {
    let response = Response::from_bytes(b"oops not json".to_vec());
    match response.json() {
        Err(Error::Deserialization(detail)) => {
            assert!(detail.contains("; body: "));
            assert!(detail.ends_with("oops not json"));
        },
        _ => panic!("the bytes are no JSON document"),
    }
}

#[test]
fn json_is_repeatable_over_the_same_body() {
    let response = Response::from_bytes(br#"{"url":"https://httpbin.org/post"}"#.to_vec());
    let first = response.json().unwrap();
    let second = response.json().unwrap();
    assert_eq!(first, second);
    assert_eq!(response.body().as_slice(), br#"{"url":"https://httpbin.org/post"}"#);
}
