use http::StatusCode;
use serverless_web::spin::{spin_handler, SpinRequest, SpinResponse, SpinResponseBuilder};
use serverless_web::headers::HeaderList;
use serverless_web::message::{NativeRequest, NativeResponse, NeutralRequest, NeutralResponse};
use serverless_web::{Handler, Request, Response, ResponseBuilder};

fn spin_neutral_request(req: http::Request<Vec<u8>>) -> NeutralRequest {
    let (parts, body) = req.into_parts();
    let mut headers = HeaderList::new();
    for (name, value) in parts.headers.iter() {
        headers.append(name.as_str().to_string(), value.as_bytes().to_vec());
    }
    NeutralRequest {
        method: parts.method.as_str().to_string(),
        uri: parts.uri.to_string(),
        headers,
        body,
    }
}

fn spin_neutral_response(resp: http::Response<Vec<u8>>) -> NeutralResponse {
    let (parts, body) = resp.into_parts();
    let mut headers = HeaderList::new();
    for (name, value) in parts.headers.iter() {
        headers.append(name.as_str().to_string(), value.as_bytes().to_vec());
    }
    NeutralResponse { status: parts.status.as_u16(), headers, body }
}

#[test]
fn spin_test_request_conversion() {
    let http_req = http::Request::builder()
        .method("GET")
        .uri("/test")
        .header("Content-Type", "application/json")
        .body(vec![])
        .unwrap();

    let spin_req: SpinRequest = spin_neutral_request(http_req).try_into().unwrap();
    assert_eq!(spin_req.method(), "GET");
    assert_eq!(spin_req.path(), "/test");
    assert_eq!(spin_req.header("Content-Type").unwrap(), "application/json");
}

#[test]
fn spin_test_response_conversion() {
    let http_resp = http::Response::builder()
        .status(200)
        .header("Content-Type", "text/plain")
        .body(vec![])
        .unwrap();

    let spin_resp: SpinResponse = spin_neutral_response(http_resp).try_into().unwrap();
    assert_eq!(StatusCode::OK, spin_resp.status());
    assert_eq!(spin_resp.header("Content-Type").unwrap(), "text/plain");
}

#[test]
fn spin_request_conversion_keeps_body_and_reads_an_empty_one() {
    let http_req = http::Request::builder()
        .method("POST")
        .uri("https://example.org/items/7?verbose=1")
        .header("X-Trace", "abc 123")
        .body(vec![0u8, 159, 146, 150])
        .unwrap();
    let spin_req: SpinRequest = spin_neutral_request(http_req).try_into().unwrap();
    assert_eq!(spin_req.method(), "POST");
    assert_eq!(spin_req.path(), "/items/7");
    assert_eq!(spin_req.body(), &[0u8, 159, 146, 150][..]);
    assert_eq!(spin_req.header("x-trace").unwrap(), "abc 123");
    assert!(spin_req.header("x-other").is_none());

    let empty = http::Request::builder().uri("/").body(vec![]).unwrap();
    let spin_req: SpinRequest = spin_neutral_request(empty).try_into().unwrap();
    assert_eq!(spin_req.body(), &[0u8; 0][..]);
    assert_eq!(spin_req.method(), "GET");
}

#[test]
fn spin_request_conversion_names_the_offending_header() {
    let mut headers = HeaderList::new();
    headers.append("accept".to_string(), b"text/html".to_vec());
    headers.append("x-latin".to_string(), vec![b'c', b'a', b'f', 0xe9]);
    headers.append("x-worse".to_string(), vec![0xff]);
    let msg = NeutralRequest {
        method: "GET".to_string(),
        uri: "/".to_string(),
        headers,
        body: vec![],
    };
    let err = SpinRequest::try_from(msg).unwrap_err();
    assert_eq!(err.header, "x-latin");
}

#[test]
fn spin_response_conversion_names_the_offending_header() {
    let mut headers = HeaderList::new();
    headers.append("x-bell".to_string(), vec![b'a', 7]);
    let msg = NeutralResponse { status: 204, headers, body: vec![] };
    let err = SpinResponse::try_from(msg).unwrap_err();
    assert_eq!(err.header, "x-bell");
}

#[test]
fn spin_wrap_never_fails() {
    let mut headers = HeaderList::new();
    headers.append("X-Raw".to_string(), vec![0xff, b'a']);
    let native = NativeRequest {
        method: "PUT".to_string(),
        path: "/upload".to_string(),
        headers,
        body: vec![1, 2, 3],
    };
    let req = SpinRequest::from(native.clone());
    assert_eq!(req.0, native);
    assert_eq!(req.method(), "PUT");
    assert_eq!(req.path(), "/upload");
    assert_eq!(req.body(), &[1u8, 2, 3][..]);
    assert_eq!(req.header("x-raw").unwrap(), "\u{fffd}a");
    assert!(req.header("x-none").is_none());

    let mut headers = HeaderList::new();
    headers.append("Retry-After".to_string(), b"120".to_vec());
    let native = NativeResponse { status: 503, headers, body: b"later".to_vec() };
    let resp = SpinResponse::from(native.clone());
    assert_eq!(resp.0, native);
    assert_eq!(resp.status(), 503);
    assert_eq!(resp.header("retry-after").unwrap(), "120");
    assert_eq!(resp.body(), b"later");
}

#[test]
fn spin_status_outside_the_range_reads_as_500() {
    for (held, reported) in [
        (0u16, 500u16),
        (99, 500),
        (100, 100),
        (200, 200),
        (404, 404),
        (599, 599),
        (600, 500),
        (999, 500),
        (65535, 500),
    ] {
        let resp = SpinResponse(NativeResponse { status: held, headers: HeaderList::new(), body: vec![] });
        assert_eq!(resp.status(), reported);
    }
}

#[test]
fn spin_builder_builds_what_was_set() {
    let resp = SpinResponseBuilder::new()
        .status(201)
        .header("Content-Type", "text/plain")
        .header("X-One", "1")
        .body(b"made".to_vec())
        .build();
    assert_eq!(resp.status(), 201);
    assert_eq!(resp.header("content-type").unwrap(), "text/plain");
    assert_eq!(resp.header("CONTENT-TYPE").unwrap(), "text/plain");
    assert_eq!(resp.header("x-one").unwrap(), "1");
    assert!(resp.header("x-two").is_none());
    assert_eq!(resp.body(), b"made");
}

#[test]
fn spin_builder_starts_with_200_and_nothing_else() {
    let resp = SpinResponseBuilder::new().build();
    assert_eq!(resp.status(), 200);
    assert_eq!(resp.body(), b"");
    assert!(resp.header("content-type").is_none());
    assert_eq!(resp.0.headers.len(), 0);
}

#[test]
fn spin_response_unwraps_to_the_native_one() {
    let resp = SpinResponseBuilder::new().status(202).body(vec![9]).build();
    let native: NativeResponse = resp.into();
    assert_eq!(native.status, 202);
    assert_eq!(native.body, vec![9]);
}

#[test]
fn spin_handler_wraps_a_function() {
    let handler = spin_handler(|req: NativeRequest| NativeResponse {
        status: 200,
        headers: HeaderList::new(),
        body: req.path.into_bytes(),
    });
    let req = SpinRequest(NativeRequest {
        method: "GET".to_string(),
        path: "/echo".to_string(),
        headers: HeaderList::new(),
        body: vec![],
    });
    let resp = handler.handle(req);
    assert_eq!(resp.status(), 200);
    assert_eq!(resp.body(), b"/echo");
}
