# mcp_bridge

A bridge between an MCP (Model Context Protocol) client, reached over
WebSocket or MQTT, and a set of tool servers: local processes spoken to over
their standard input and output, and remote servers reached over
server-sent events. The bridge collects the tools of every server, offers
them to the client under prefixed names (`<server>_xzcli_<tool>`), forwards
tool calls to the server that owns the tool, answers pings and keeps the
client connection alive with a heartbeat and reconnection.

## Layout

- `src/` — the library, verified with Verus. Every decision of the bridge is
  a function from the bridge's state and an event to the new state and the
  messages to send, with a contract that states both exactly
  (`src/bridge.rs`). `src/laws.rs` proves properties that span several
  operations (collected tools are found and called again, the two tool tables
  stay in agreement, a tool list request is answered once, reconnection
  attempts stay bounded). JSON text is read and written by `serde_json`
  behind the trusted functions of `src/json_text.rs`.
- `tests/` — tests of the library on concrete values.
- `app/` — the program: command line, configuration files, processes,
  network connections and the event loop that performs what the library
  decides.
