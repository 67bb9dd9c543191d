//! What the MCP service decides: the query behind its schema tool, how a
//! query's outcome becomes a tool's reply, and where its HTTP transport binds.
use vstd::prelude::*;
use vstd::string::StringExecFns;

use crate::clickhouse::{
    error_message, reply_outcome, same_outcome, ClickHouseError,
};

verus! {

/// The reply of a tool: the query's result, or the text of its failure.
pub enum ToolOutcome<T> {
    /// The query succeeded; the tool returns its result as JSON.
    Success(T),
    /// The query failed; the tool returns this text as an error.
    Failure(String),
}

/// The text of a failed tool call: `ClickHouseError: ` and then, for an error
/// reported by the server or proxy, its message as the server gave it; for any
/// other error, the error's message.
pub open spec fn tool_error_text_spec(e: ClickHouseError) -> Seq<char> {
    match e {
        ClickHouseError::Server(m) => "ClickHouseError: "@ + m@,
        _ => "ClickHouseError: "@ + error_message(e),
    }
}

/// The reply of a tool for the outcome of its query.
pub open spec fn tool_reply_matches<T>(result: Result<T, ClickHouseError>, r: ToolOutcome<T>) -> bool {
    match result {
        Ok(v) => r == ToolOutcome::Success(v),
        Err(e) => r matches ToolOutcome::Failure(t) && t@ == tool_error_text_spec(e),
    }
}

/// Two tool replies are the same: equal results, or the same failure text.
pub open spec fn same_reply<T>(a: ToolOutcome<T>, b: ToolOutcome<T>) -> bool {
    match a {
        ToolOutcome::Success(x) => b == ToolOutcome::Success(x),
        ToolOutcome::Failure(t) => b matches ToolOutcome::Failure(u) && t@ == u@,
    }
}

/// Every failure text of a tool begins with `ClickHouseError: `.
pub proof fn law_tool_error_text_prefix(e: ClickHouseError)
    ensures
        tool_error_text_spec(e).len() >= 17,
        tool_error_text_spec(e).take(17) == "ClickHouseError: "@,
{
    reveal_strlit("ClickHouseError: ");
    assert(tool_error_text_spec(e).take(17) =~= "ClickHouseError: "@);
}

/// The same reply from the proxy gives the same tool reply, whichever tool
/// sent the query: in particular the schema tool and `execute_query` with
/// the text of `schema_query` send the same request (the same body to the
/// same URL) and, meeting the same reply, answer alike.
pub proof fn law_same_reply_same_tool_reply(
    status: u16,
    text: Result<Seq<char>, reqwest::Error>,
    body: Result<Seq<u8>, reqwest::Error>,
    r1: Result<serde_json::Value, ClickHouseError>,
    r2: Result<serde_json::Value, ClickHouseError>,
    o1: ToolOutcome<serde_json::Value>,
    o2: ToolOutcome<serde_json::Value>,
)
    requires
        reply_outcome(status, text, body, r1),
        reply_outcome(status, text, body, r2),
        tool_reply_matches(r1, o1),
        tool_reply_matches(r2, o2),
    ensures
        same_reply(o1, o2),
{
    crate::clickhouse::law_same_reply_same_outcome(status, text, body, r1, r2);
    law_same_outcome_same_tool_reply(r1, r2, o1, o2);
}

/// Queries with the same outcome get the same tool reply.
pub proof fn law_same_outcome_same_tool_reply<T>(
    r1: Result<T, ClickHouseError>,
    r2: Result<T, ClickHouseError>,
    o1: ToolOutcome<T>,
    o2: ToolOutcome<T>,
)
    requires
        same_outcome(r1, r2),
        tool_reply_matches(r1, o1),
        tool_reply_matches(r2, o2),
    ensures
        same_reply(o1, o2),
{
}

/// The text that a tool returns for a failed query.
pub fn tool_error_text(e: &ClickHouseError) -> (r: String)
    ensures
        r@ == tool_error_text_spec(*e),
{
    match e {
        ClickHouseError::Server(m) => String::from_str("ClickHouseError: ").concat(m.as_str()),
        _ => {
            let msg = e.message();
            String::from_str("ClickHouseError: ").concat(msg.as_str())
        },
    }
}

/// The reply of a tool for the outcome of its query: success with the result,
/// or failure with the error's text. A failed query never makes the tool call
/// itself fail; the failure is reported inside the reply.
pub fn tool_outcome<T>(result: Result<T, ClickHouseError>) -> (r: ToolOutcome<T>)
    ensures
        tool_reply_matches(result, r),
{
    match result {
        Ok(v) => ToolOutcome::Success(v),
        Err(e) => ToolOutcome::Failure(tool_error_text(&e)),
    }
}

/// The query by which the schema tool lists the tables of the current
/// database with their `CREATE TABLE` statements.
pub fn schema_query() -> (r: &'static str)
    ensures
        r@ == "SELECT name, create_table_query FROM system.tables WHERE database = currentDatabase()"@,
{
    "SELECT name, create_table_query FROM system.tables WHERE database = currentDatabase()"
}

/// The address the HTTP transport binds to: the configured one (the
/// environment variable `HTTP_BIND_ADDRESS`) where there is one, else
/// `127.0.0.1:8001`.
pub fn bind_address(configured: Option<String>) -> (r: String)
    ensures
        match configured {
            Some(a) => r == a,
            None => r@ == "127.0.0.1:8001"@,
        },
{
    match configured {
        Some(a) => a,
        None => String::from_str("127.0.0.1:8001"),
    }
}

} // verus!
