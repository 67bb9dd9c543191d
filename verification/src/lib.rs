//! Verified core of an MCP server that answers questions about a ClickHouse
//! database through a read-only query proxy.
pub mod outside;
pub mod clickhouse;
pub mod service;
