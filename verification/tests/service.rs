use agp_mcp::clickhouse::{decode_body, ClickHouseError};
use agp_mcp::service::{bind_address, schema_query, tool_error_text, tool_outcome, ToolOutcome};

#[test]
fn tool_error_text_for_server_error() {
    let e = ClickHouseError::Server("DB Error".to_string());
    let text = tool_error_text(&e);
    assert!(
        text.contains("ClickHouseError: DB Error"),
        "Result was: {}",
        text
    );
    assert_eq!(text, "ClickHouseError: DB Error");
}

#[test]
fn tool_error_text_for_parse_error() {
    let e = decode_body(Ok(b"not json".to_vec())).unwrap_err();
    let text = tool_error_text(&e);
    assert!(
        text.starts_with("ClickHouseError: Failed to parse response: "),
        "Result was: {}",
        text
    );
}

#[test]
fn tool_outcome_of_failure() {
    let out: ToolOutcome<u32> = tool_outcome(Err(ClickHouseError::Server("Query Error".to_string())));
    match out {
        ToolOutcome::Failure(t) => assert!(t.contains("ClickHouseError: Query Error"), "Result was: {}", t),
        ToolOutcome::Success(_) => panic!("expected a failure"),
    }
}

#[test]
fn tool_outcome_of_success() {
    let out = tool_outcome(Ok::<u32, ClickHouseError>(42));
    match out {
        ToolOutcome::Success(v) => assert_eq!(v, 42),
        ToolOutcome::Failure(t) => panic!("expected a success, got {}", t),
    }
}

#[test]
fn schema_query_lists_current_tables() {
    assert_eq!(
        schema_query(),
        "SELECT name, create_table_query FROM system.tables WHERE database = currentDatabase()"
    );
}

#[test]
fn bind_address_default_and_configured() {
    assert_eq!(bind_address(None), "127.0.0.1:8001");
    assert_eq!(bind_address(Some("0.0.0.0:8080".to_string())), "0.0.0.0:8080");
}
