use serverless_web::headers::HeaderList;
use serverless_web::message::{encode_headers, NativeRequest, NeutralRequest};
use serverless_web::model::coerce_status;
use serverless_web::text::decode_header_value;
use std::borrow::Cow;

#[test]
fn utf8_bytes_decode_to_their_text() {
    assert_eq!(decode_header_value(b"text/plain"), "text/plain");
    assert_eq!(decode_header_value(b""), "");
    assert_eq!(decode_header_value("caf\u{e9} \u{1f600}".as_bytes()), "caf\u{e9} \u{1f600}");
    assert!(matches!(decode_header_value(b"abc"), Cow::Borrowed("abc")));
}

#[test]
fn other_bytes_decode_lossily() {
    assert_eq!(decode_header_value(&[0xff]), "\u{fffd}");
    assert_eq!(decode_header_value(&[b'a', 0xc3]), "a\u{fffd}");
    assert_eq!(decode_header_value(&[b'c', b'a', b'f', 0xe9]), "caf\u{fffd}");
    assert_eq!(decode_header_value(&[0xf0, 0x9f, b'x', 0x80, b'y']), "\u{fffd}x\u{fffd}y");
}

#[test]
fn status_codes_from_100_to_599_are_kept() {
    assert_eq!(coerce_status(100), 100);
    assert_eq!(coerce_status(200), 200);
    assert_eq!(coerce_status(302), 302);
    assert_eq!(coerce_status(404), 404);
    assert_eq!(coerce_status(500), 500);
    assert_eq!(coerce_status(599), 599);
}

#[test]
fn other_status_codes_become_500() {
    assert_eq!(coerce_status(0), 500);
    assert_eq!(coerce_status(1), 500);
    assert_eq!(coerce_status(99), 500);
    assert_eq!(coerce_status(600), 500);
    assert_eq!(coerce_status(999), 500);
    assert_eq!(coerce_status(1000), 500);
    assert_eq!(coerce_status(u16::MAX), 500);
}

#[test]
fn visible_ascii_spaces_and_tabs_are_encodable() {
    let mut headers = HeaderList::new();
    headers.append("a".to_string(), b"plain".to_vec());
    headers.append("b".to_string(), b" two  words\t".to_vec());
    headers.append("c".to_string(), vec![32, 126, 9]);
    headers.append("d".to_string(), vec![]);
    let encoded = encode_headers(&headers).unwrap();
    assert_eq!(encoded, headers);
}

#[test]
fn control_bytes_and_bytes_from_127_on_are_not_encodable() {
    for bad in [0u8, 1, 8, 10, 13, 31, 127, 128, 233, 255] {
        let mut headers = HeaderList::new();
        headers.append("fine".to_string(), b"ok".to_vec());
        headers.append("X-Bad".to_string(), vec![b'a', bad, b'b']);
        headers.append("later".to_string(), vec![0]);
        let err = encode_headers(&headers).unwrap_err();
        assert_eq!(err.header, "X-Bad");
    }
}

#[test]
fn the_path_is_the_path_component_of_the_uri() {
    for (uri, path) in [
        ("/test", "/test"),
        ("/test?x=1&y=2", "/test"),
        ("/", "/"),
        ("/a/b/c", "/a/b/c"),
        ("http://example.org/hello/world", "/hello/world"),
        ("https://example.org/hello?name=x", "/hello"),
        ("https://example.org", "/"),
        ("*", "*"),
    ] {
        let msg = NeutralRequest {
            method: "GET".to_string(),
            uri: uri.to_string(),
            headers: HeaderList::new(),
            body: vec![],
        };
        let native = NativeRequest::from_neutral(msg).unwrap();
        assert_eq!(native.path, path);
    }
}

#[test]
fn a_malformed_uri_has_the_empty_path() {
    for uri in ["", "/a b", "http://", "\u{e9}"] {
        let msg = NeutralRequest {
            method: "GET".to_string(),
            uri: uri.to_string(),
            headers: HeaderList::new(),
            body: vec![7],
        };
        let native = NativeRequest::from_neutral(msg).unwrap();
        assert_eq!(native.path, "");
        assert_eq!(native.method, "GET");
        assert_eq!(native.body, vec![7]);
    }
}

#[test]
fn an_encoding_error_names_its_header_in_words() {
    let mut headers = HeaderList::new();
    headers.append("X-Bad".to_string(), vec![200]);
    let err = encode_headers(&headers).unwrap_err();
    assert_eq!(err.message(), "cannot encode the value of header X-Bad");
}
