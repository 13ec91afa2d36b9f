# gvm_mcp

An MCP server for Greenbone Vulnerability Management (OpenVAS) that maps MCP
tools onto the endpoints of the `rust-gvm-api` REST gateway. All GMP
knowledge lives in the gateway; this project decides which tools an instance
exposes, what each tool sends to the gateway, and what it hands back.

## Layout

- `src/` — the library, written in Verus and verified:
  - `config.rs` — validation of the command-line settings;
  - `mcp/toolset.rs`, `mcp/catalog.rs` — toolset selection and the tool
    catalog (identity is opt-in, read-only mode hides every write tool);
  - `mcp/tools/` — one module per toolset: each tool's parameters and the
    gateway call it makes, list summaries, artifact downloads, the
    connection test;
  - `mcp/error.rs`, `gateway/error.rs` — typed gateway failures and their
    wording as tool errors;
  - `gateway/` — URLs, per-request identity, session bookkeeping, the
    gateway's data shapes;
  - `json.rs`, `body.rs`, `text.rs`, `codec.rs` — JSON values, request
    bodies, text helpers and byte encodings.
- `tests/` — tests of the library.
- `app/` — the executable: command line, logging, the MCP transports
  (`rmcp`), HTTP towards the gateway (`reqwest`) and JSON (de)serialization.

Contracts state what each function returns; laws that span functions are
public proof functions named `law_*`.
