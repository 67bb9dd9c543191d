# agp_mcp

An MCP server for ClickHouse that reaches the database through a read-only
query proxy. The library in `src/` holds the verified decisions; `app/` is the
program around it (command line, MCP transports, network I/O).

- `src/outside.rs`: the outside types the library carries (`url`, `reqwest`,
  `serde_json`) and the trusted wrappers around their functions.
- `src/clickhouse.rs`: the client's configuration (proxy URL with
  `default_format=JSON`, request headers), its errors, and how a proxy reply
  is judged (status, error text, JSON body with or without an exception).
- `src/service.rs`: the schema query, how a query outcome becomes a tool
  reply, and the HTTP bind address.
