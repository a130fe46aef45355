//! Tests of the verb convenience facade: thin named wrappers that fix the
//! HTTP method and delegate to the dispatch and retry primitives.

use std::sync::Mutex;

use reqwew::blocking::Http;
use reqwew::error::Error;
use reqwew::response::Response;
use reqwew::{Method, TryClone};

struct EchoRequest {
    method: Method,
    address: String,
    body: Option<Vec<u8>>,
}

impl TryClone for EchoRequest {
    fn try_clone(&self) -> Option<Self> {
        Some(EchoRequest {
            method: self.method,
            address: self.address.clone(),
            body: self.body.clone(),
        })
    }
}

/// An engine answering every dispatch with a JSON echo of the request:
/// its method, its target address and its body.
struct EchoEngine {
    dispatched: Mutex<u32>,
}

impl EchoEngine {
    fn new() -> Self {
        EchoEngine { dispatched: Mutex::new(0) }
    }

    fn dispatched(&self) -> u32 {
        *self.dispatched.lock().unwrap()
    }
}

impl Http for EchoEngine {
    type Request = EchoRequest;
    type Response = Response;

    fn request(&self, request: EchoRequest) -> Result<Response, Error> {
        *self.dispatched.lock().unwrap() += 1;
        let mut bytes = Vec::new();
        bytes.extend_from_slice(b"{\"method\":\"");
        bytes.extend_from_slice(format!("{:?}", request.method).as_bytes());
        bytes.extend_from_slice(b"\",\"url\":\"");
        bytes.extend_from_slice(request.address.as_bytes());
        bytes.extend_from_slice(b"\",\"data\":\"");
        if let Some(body) = &request.body {
            bytes.extend_from_slice(body);
        }
        bytes.extend_from_slice(b"\"}");
        Ok(Response::from_bytes(bytes))
    }

    fn sleep(&self, _delay_ms: u64) {}

    fn build_request(
        &self,
        method: Method,
        address: &str,
        body: Option<Vec<u8>>,
    ) -> Result<EchoRequest, Error> {
        Ok(EchoRequest { method, address: String::from(address), body })
    }
}

#[test]
fn get_fixes_the_method_and_carries_the_address() {
    let engine = EchoEngine::new();
    let response = engine.get("https://example.com/get").unwrap();
    let value = response.json().unwrap();
    assert_eq!(value["method"].as_str().unwrap(), "Get");
    assert_eq!(value["url"].as_str().unwrap(), "https://example.com/get");
    assert_eq!(engine.dispatched(), 1);
}

#[test]
fn get_with_retries_dispatches_once_on_success() {
    let engine = EchoEngine::new();
    let response = engine.get_with_retries("https://example.com/get", 3, 50).unwrap();
    assert_eq!(response.json().unwrap()["method"].as_str().unwrap(), "Get");
    assert_eq!(engine.dispatched(), 1);
}

#[test]
fn post_carries_its_body_through_to_the_response_text() {
    let engine = EchoEngine::new();
    let response = engine
        .post_with_retries("https://example.com/echo", b"hello".to_vec(), 3, 50)
        .unwrap();
    assert!(response.text().contains("hello"));
    assert_eq!(engine.dispatched(), 1);
}

#[test]
fn body_carrying_verbs_fix_their_methods() {
    let engine = EchoEngine::new();
    let posted = engine.post("https://example.com/a", b"p".to_vec()).unwrap();
    assert_eq!(posted.json().unwrap()["method"].as_str().unwrap(), "Post");
    let put = engine.put("https://example.com/a", b"q".to_vec()).unwrap();
    assert_eq!(put.json().unwrap()["method"].as_str().unwrap(), "Put");
    let patched = engine.patch_with_retries("https://example.com/a", b"r".to_vec(), 2, 10).unwrap();
    assert_eq!(patched.json().unwrap()["method"].as_str().unwrap(), "Patch");
}

#[test]
fn bodyless_verbs_fix_their_methods() {
    let engine = EchoEngine::new();
    let deleted = engine.delete("https://example.com/a").unwrap();
    assert_eq!(deleted.json().unwrap()["method"].as_str().unwrap(), "Delete");
    let headed = engine.head("https://example.com/a").unwrap();
    assert_eq!(headed.json().unwrap()["method"].as_str().unwrap(), "Head");
    let optioned = engine.options_with_retries("https://example.com/a", 2, 10).unwrap();
    assert_eq!(optioned.json().unwrap()["method"].as_str().unwrap(), "Options");
    let connected = engine.connect("https://example.com/a").unwrap();
    assert_eq!(connected.json().unwrap()["method"].as_str().unwrap(), "Connect");
    let traced = engine.trace("https://example.com/a").unwrap();
    assert_eq!(traced.json().unwrap()["method"].as_str().unwrap(), "Trace");
}

#[test]
fn retrying_verbs_keep_the_empty_budget_boundary() {
    let engine = EchoEngine::new();
    let fetched = engine.get_with_retries("https://example.com/get", 0, 50);
    assert!(matches!(fetched, Err(Error::ExceededMaxRetries(0))));
    let posted = engine.post_with_retries("https://example.com/echo", b"hello".to_vec(), 0, 50);
    assert!(matches!(posted, Err(Error::ExceededMaxRetries(0))));
    assert_eq!(engine.dispatched(), 0);
}
