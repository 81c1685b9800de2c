use schema_registry::client::decoder::{
    decode_error, parse_response, status_is_success, upstream_error, VND_SCHEMA_REGISTRY_V1_JSON,
};
use schema_registry::error::HttpCallError;

fn decode_u32(bytes: &[u8]) -> Result<u32, serde_json::Error> {
    serde_json::from_slice::<u32>(bytes)
}

fn decode_names(bytes: &[u8]) -> Result<Vec<String>, serde_json::Error> {
    serde_json::from_slice::<Vec<String>>(bytes)
}

#[test]
fn the_media_type_is_the_registry_s() {
    assert_eq!(VND_SCHEMA_REGISTRY_V1_JSON, "application/vnd.schemaregistry.v1+json");
}

#[test]
fn success_is_200_to_299() {
    assert!(!status_is_success(199));
    assert!(status_is_success(200));
    assert!(status_is_success(204));
    assert!(status_is_success(299));
    assert!(!status_is_success(300));
    assert!(!status_is_success(404));
    assert!(!status_is_success(0));
    assert!(!status_is_success(u16::MAX));
}

#[test]
fn a_success_with_a_valid_body_is_decoded() {
    let r = parse_response("http://r/subjects".to_string(), 200, b"[\"a\",\"b\"]", "names", decode_names);
    assert_eq!(r.expect("decoded"), vec!["a".to_string(), "b".to_string()]);
    let r = parse_response("http://r/x".to_string(), 299, b"17", "u32", decode_u32);
    assert_eq!(r.expect("decoded"), 17);
}

#[test]
fn a_success_with_an_invalid_body_is_a_decode_error() {
    let r = parse_response("http://r/x".to_string(), 200, b"{not json", "u32", decode_u32);
    match r {
        Err(HttpCallError::JsonParse { body, target, .. }) => {
            assert_eq!(body, "{not json");
            assert_eq!(target, "u32");
        }
        _ => panic!("expected a decode error"),
    }
}

#[test]
fn a_404_is_an_upstream_error() {
    let r = parse_response(
        "http://r/subjects/x".to_string(),
        404,
        b"{\"error_code\":40401}",
        "u32",
        decode_u32,
    );
    match r {
        Err(HttpCallError::UpstreamError { url, status, body }) => {
            assert_eq!(url, "http://r/subjects/x");
            assert_eq!(status, 404);
            assert_eq!(body, "{\"error_code\":40401}");
        }
        _ => panic!("expected an upstream error"),
    }
}

#[test]
fn a_failure_status_is_not_decoded_even_with_a_valid_body() {
    let r = parse_response("u".to_string(), 500, b"17", "u32", decode_u32);
    assert!(matches!(r, Err(HttpCallError::UpstreamError { status: 500, .. })));
}

#[test]
fn a_body_that_is_not_utf8_is_kept_with_replacement_characters() {
    let e = upstream_error("u".to_string(), 502, &[b'a', 0xff, b'b']);
    match e {
        HttpCallError::UpstreamError { body, .. } => assert_eq!(body, "a\u{fffd}b"),
        _ => panic!("expected an upstream error"),
    }
    let source = decode_u32(b"x").expect_err("not a number");
    match decode_error(&[0xc3, 0xa9], "u32", source) {
        HttpCallError::JsonParse { body, target, .. } => {
            assert_eq!(body, "\u{e9}");
            assert_eq!(target, "u32");
        }
        _ => panic!("expected a decode error"),
    }
}

#[test]
fn a_body_that_is_utf8_is_kept_as_it_is() {
    match upstream_error("u".to_string(), 404, b"Not Found") {
        HttpCallError::UpstreamError { body, .. } => assert_eq!(body, "Not Found"),
        _ => panic!("expected an upstream error"),
    }
    match upstream_error("u".to_string(), 500, "gr\u{fc}\u{df}e \u{1f600}".as_bytes()) {
        HttpCallError::UpstreamError { body, .. } => assert_eq!(body, "gr\u{fc}\u{df}e \u{1f600}"),
        _ => panic!("expected an upstream error"),
    }
    match upstream_error("u".to_string(), 500, b"") {
        HttpCallError::UpstreamError { body, .. } => assert_eq!(body, ""),
        _ => panic!("expected an upstream error"),
    }
}
