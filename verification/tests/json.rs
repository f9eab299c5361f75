use serverless_web::cloudflare::{CfRequest, CfResponseBuilder};
use serverless_web::headers::HeaderList;
use serverless_web::message::NativeRequest;
use serverless_web::serde::{RequestExt, ResponseBuilderExt, ResponseExt};
use serverless_web::spin::SpinResponseBuilder;
use serverless_web::{Response, ResponseBuilder};
use std::collections::BTreeMap;

#[test]
fn json_sets_the_content_type_and_a_body_that_decodes_back() {
    let mut value: BTreeMap<String, Vec<i64>> = BTreeMap::new();
    value.insert("primes".to_string(), vec![2, 3, 5, 7]);
    value.insert("none".to_string(), vec![]);
    let resp = SpinResponseBuilder::new().status(201).json(&value).unwrap();
    assert_eq!(resp.status(), 201);
    assert_eq!(resp.header("content-type").unwrap(), "application/json");
    assert_eq!(resp.body(), br#"{"none":[],"primes":[2,3,5,7]}"#);
    let back: BTreeMap<String, Vec<i64>> = resp.json_body().unwrap();
    assert_eq!(back, value);
}

#[test]
fn json_replaces_a_content_type_that_was_set() {
    let resp = CfResponseBuilder::new()
        .header("Content-Type", "text/plain")
        .header("X-Kept", "yes")
        .body(b"dropped".to_vec())
        .json(&("a", 1u8, true))
        .unwrap();
    assert_eq!(resp.header("Content-Type").unwrap(), "application/json");
    assert_eq!(resp.header("x-kept").unwrap(), "yes");
    assert_eq!(resp.0.headers.len(), 2);
    assert_eq!(resp.body(), br#"["a",1,true]"#);
}

#[test]
fn json_reports_a_value_that_cannot_be_encoded() {
    let mut value: BTreeMap<(u8, u8), u8> = BTreeMap::new();
    value.insert((1, 2), 3);
    assert!(CfResponseBuilder::new().json(&value).is_err());
}

#[test]
fn json_encoded_builds_on_bytes_and_hands_an_error_on() {
    let resp = CfResponseBuilder::new().json_encoded(Ok(b"null".to_vec())).unwrap();
    assert_eq!(resp.header("content-type").unwrap(), "application/json");
    assert_eq!(resp.body(), b"null");

    let error = serde_json::from_slice::<u8>(b"?").unwrap_err();
    let text = error.to_string();
    let handed_on = CfResponseBuilder::new().json_encoded(Err(error)).unwrap_err();
    assert_eq!(handed_on.to_string(), text);
}

#[test]
fn json_body_decodes_a_request_body() {
    let req = CfRequest(NativeRequest {
        method: "POST".to_string(),
        path: "/".to_string(),
        headers: HeaderList::new(),
        body: br#"{"id": 7, "tags": ["a", "b"]}"#.to_vec(),
    });
    let value: serde_json::Value = req.json_body().unwrap();
    assert_eq!(value["id"], 7);
    assert_eq!(value["tags"][1], "b");
    let pair: Result<(u8, u8), serde_json::Error> = req.json_body();
    assert!(pair.is_err());
}

#[test]
fn json_body_reports_bytes_that_are_no_json() {
    let req = CfRequest(NativeRequest {
        method: "POST".to_string(),
        path: "/".to_string(),
        headers: HeaderList::new(),
        body: b"{not json".to_vec(),
    });
    let value: Result<serde_json::Value, serde_json::Error> = req.json_body();
    assert!(value.is_err());
    let empty = CfRequest(NativeRequest {
        method: "GET".to_string(),
        path: "/".to_string(),
        headers: HeaderList::new(),
        body: vec![],
    });
    let value: Result<serde_json::Value, serde_json::Error> = empty.json_body();
    assert!(value.is_err());
}
