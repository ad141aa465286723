//! The Model Context Protocol: messages, framing, JSON-RPC dispatch and the
//! prompt, resource and tool primitives.

pub mod types;
pub mod protocol;
pub mod prompts;
pub mod resources;
pub mod tools;
pub mod auth;
pub mod jsonrpc;
pub mod lifecycle;
pub mod executor;
pub mod error;
pub mod server_manager;
pub mod server_registry;
pub mod transport;
pub mod agent;
pub mod schema;
