//! Verified core of an MCP (Model Context Protocol) bridge: configuration
//! checking, tool-name prefixing, JSON-RPC message construction and the
//! decision logic that routes messages between a client transport and a set
//! of local tool servers.

pub mod assoc;
pub mod bridge;
pub mod config;
pub mod json;
pub mod json_text;
pub mod laws;
pub mod process;
pub mod protocol;
pub mod sse_server;
pub mod strmap;
pub mod text;
pub mod tool_names;
pub mod transports;
