//! Bidirectional JSON-RPC 2.0 connection core for an MCP protocol extension.
//!
//! The crate models JSON documents as plain data (`json::JsonValue`), frames
//! messages as one JSON object per line, classifies inbound lines into
//! requests, responses and notifications by structural inspection, and tracks
//! the single outstanding local call so that its response is routed back to
//! the caller while peer-initiated traffic is buffered in arrival order.
//! Reading and writing the underlying byte stream is left to the embedding
//! application; the connection itself is a state machine over decoded lines.

pub mod json;
pub mod types;
pub mod codec;
pub mod json_io;
pub mod connection;
pub mod capabilities;
pub mod methods;

pub use json::JsonValue;
