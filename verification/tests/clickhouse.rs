use agp_mcp::clickhouse::{
    decode_body, headers_fit, reply_body_for_status, request_header_map, server_error,
    ClickHouseClient, ClickHouseError, ColumnDescriptor, ReplyBody,
};
use reqwest::header::{HeaderMap, HeaderValue};
use agp_mcp::service::tool_error_text;
use agp_mcp::clickhouse::check_exception;

fn request_error() -> reqwest::Error {
    reqwest::Client::new().get("not a url").build().unwrap_err()
}

fn body(text: &str) -> Result<Vec<u8>, reqwest::Error> {
    Ok(text.as_bytes().to_vec())
}

#[test]
fn test_new_invalid_url() {
    let result = ClickHouseClient::new("not a url", None);
    assert!(result.is_err());
}

#[test]
fn test_new_success() {
    let client = ClickHouseClient::new("http://localhost:8123", None).unwrap();
    assert_eq!(
        client.proxy_url(),
        "http://localhost:8123/?default_format=JSON"
    );
}

#[test]
fn test_new_with_headers() {
    let mut headers = HeaderMap::new();
    headers.insert("X-Test", HeaderValue::from_static("test-val"));
    let _client = ClickHouseClient::new("http://localhost:8123", Some(headers)).unwrap();
}

#[test]
fn new_invalid_url_is_invalid_url_error() {
    match ClickHouseClient::new("not a url", None) {
        Err(e @ ClickHouseError::InvalidUrl(_)) => {
            assert!(e.message().starts_with("Invalid URL: "), "{}", e.message());
        }
        other => panic!("expected an invalid URL error, got {:?}", other.err()),
    }
}

#[test]
fn new_appends_format_to_existing_query() {
    let client = ClickHouseClient::new("https://proxy.example/q?user=me", None).unwrap();
    assert_eq!(
        client.proxy_url(),
        "https://proxy.example/q?user=me&default_format=JSON"
    );
}

#[test]
fn request_headers_force_plain_text_and_json() {
    let mut headers = HeaderMap::new();
    headers.insert("X-Test", HeaderValue::from_static("test-val"));
    headers.insert("content-type", HeaderValue::from_static("application/xml"));
    headers.append("content-type", HeaderValue::from_static("text/csv"));
    let out = request_header_map(Some(headers));
    assert_eq!(out.get("x-test").unwrap(), "test-val");
    let content_types: Vec<_> = out.get_all("content-type").iter().collect();
    assert_eq!(content_types, vec!["text/plain"]);
    assert_eq!(out.get("accept").unwrap(), "application/json");
    assert_eq!(out.keys_len(), 3);
}

#[test]
fn request_headers_without_caller_headers() {
    let out = request_header_map(None);
    assert_eq!(out.keys_len(), 2);
    assert_eq!(out.get("content-type").unwrap(), "text/plain");
    assert_eq!(out.get("accept").unwrap(), "application/json");
}

#[test]
fn headers_fit_small_and_absent_maps() {
    assert!(headers_fit(&None));
    let mut headers = HeaderMap::new();
    headers.insert("X-Test", HeaderValue::from_static("test-val"));
    assert!(headers_fit(&Some(headers)));
}

#[test]
fn status_decides_how_the_body_is_read() {
    assert!(matches!(reply_body_for_status(200), ReplyBody::Document));
    assert!(matches!(reply_body_for_status(204), ReplyBody::Document));
    assert!(matches!(reply_body_for_status(299), ReplyBody::Document));
    assert!(matches!(reply_body_for_status(199), ReplyBody::ErrorText));
    assert!(matches!(reply_body_for_status(300), ReplyBody::ErrorText));
    assert!(matches!(reply_body_for_status(404), ReplyBody::ErrorText));
    assert!(matches!(reply_body_for_status(500), ReplyBody::ErrorText));
}

#[test]
fn server_error_keeps_the_body_text() {
    let e = server_error(Ok("Internal Server Error".to_string()));
    match &e {
        ClickHouseError::Server(m) => assert_eq!(m, "Internal Server Error"),
        other => panic!("expected a server error, got {:?}", other),
    }
    assert_eq!(e.message(), "ClickHouse error: Internal Server Error");
    assert!(e.message().contains("Internal Server Error"));
}

#[test]
fn server_error_without_body_text() {
    let e = server_error(Err(request_error()));
    match e {
        ClickHouseError::Server(m) => assert_eq!(m, "Unknown error"),
        other => panic!("expected a server error, got {:?}", other),
    }
}

#[test]
fn decode_success_body() {
    let text = r#"{"meta":[{"name":"col1","type":"String"}],"data":[{"col1":"val1"}],"rows":1,"statistics":{"bytes_read":10,"elapsed":0.1,"rows_read":1}}"#;
    let doc = decode_body(body(text)).unwrap();
    assert_eq!(doc.get("rows").and_then(|r| r.as_u64()), Some(1));
    let meta = doc.get("meta").and_then(|m| m.as_array()).unwrap();
    assert_eq!(meta[0].get("name").and_then(|n| n.as_str()), Some("col1"));
}

#[test]
fn decode_empty_data_body() {
    let text = r#"{"meta":[{"name":"col1","type":"String"}],"data":[],"rows":0,"statistics":{"bytes_read":0,"elapsed":0.0,"rows_read":0}}"#;
    let doc = decode_body(body(text)).unwrap();
    assert_eq!(doc.get("rows").and_then(|r| r.as_u64()), Some(0));
    assert!(doc.get("data").and_then(|d| d.as_array()).unwrap().is_empty());
}

#[test]
fn decode_clickhouse_exception() {
    let e = decode_body(body(r#"{"exception": "Some ClickHouse error"}"#)).unwrap_err();
    match &e {
        ClickHouseError::Server(m) => assert_eq!(m, "Some ClickHouse error"),
        other => panic!("expected a server error, got {:?}", other),
    }
    assert!(e.message().contains("Some ClickHouse error"));
}

#[test]
fn decode_exception_that_is_not_a_string() {
    let doc = decode_body(body(r#"{"exception": 42, "rows": 0}"#)).unwrap();
    assert_eq!(doc.get("exception").and_then(|x| x.as_u64()), Some(42));
}

#[test]
fn decode_nested_exception_is_not_reported() {
    let doc = decode_body(body(r#"{"data": {"exception": "inner"}}"#)).unwrap();
    assert!(doc.get("exception").is_none());
}

#[test]
fn decode_invalid_json() {
    let e = decode_body(body("not json")).unwrap_err();
    assert!(matches!(e, ClickHouseError::Parse(_)));
    assert!(
        e.message().contains("Failed to parse response"),
        "Error message was: {}",
        e.message()
    );
}

#[test]
fn decode_unreadable_body() {
    let e = decode_body(Err(request_error())).unwrap_err();
    assert!(matches!(e, ClickHouseError::Request(_)));
    assert!(e.message().starts_with("Request failed: "), "{}", e.message());
}

#[test]
fn column_descriptor_fields() {
    let c = ColumnDescriptor {
        name: "col1".to_string(),
        column_type: "String".to_string(),
    };
    assert_eq!(c.clone(), c);
    assert_eq!(c.name, "col1");
    assert_eq!(c.column_type, "String");
}

#[test]
fn new_checked_matches_new() {
    let client = ClickHouseClient::new_checked("http://localhost:8123", None)
        .unwrap()
        .unwrap();
    assert_eq!(client.proxy_url(), "http://localhost:8123/?default_format=JSON");
    assert!(matches!(
        ClickHouseClient::new_checked("not a url", None),
        Some(Err(ClickHouseError::InvalidUrl(_)))
    ));
}

#[test]
fn proxy_url_fits_ordinary_urls() {
    assert!(ClickHouseClient::proxy_url_fits("http://localhost:8123"));
    assert!(ClickHouseClient::proxy_url_fits("not a url"));
}

#[test]
fn cloned_client_posts_to_the_same_url() {
    let client = ClickHouseClient::new("http://localhost:8123/#frag", None).unwrap();
    let copy = client.clone();
    assert_eq!(copy.proxy_url(), client.proxy_url());
    assert_eq!(client.proxy_url(), "http://localhost:8123/?default_format=JSON#frag");
}

#[test]
fn same_reply_same_tool_text() {
    let a = decode_body(body("{\"exception\": \"boom\"}")).unwrap_err();
    let b = decode_body(body("{\"exception\": \"boom\"}")).unwrap_err();
    assert_eq!(tool_error_text(&a), tool_error_text(&b));
    assert_eq!(tool_error_text(&a), "ClickHouseError: boom");
}

#[test]
fn check_exception_on_parsed_documents() {
    let doc: serde_json::Value = serde_json::from_str(r#"{"exception": "Code: 60. Table missing"}"#).unwrap();
    match check_exception(doc) {
        Err(ClickHouseError::Server(m)) => assert_eq!(m, "Code: 60. Table missing"),
        other => panic!("expected a server error, got {:?}", other),
    }
    let doc: serde_json::Value = serde_json::from_str(r#"{"rows": 3}"#).unwrap();
    assert_eq!(check_exception(doc.clone()).unwrap(), doc);
    let doc: serde_json::Value = serde_json::from_str(r#"["exception"]"#).unwrap();
    assert_eq!(check_exception(doc.clone()).unwrap(), doc);
}
