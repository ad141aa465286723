//! Verified core of an agent for the Model Context Protocol.

pub mod clock;
pub mod json;
pub mod json_text;
pub mod keyed;
pub mod llm;
pub mod mock;
pub mod mcp;
pub mod text;
pub mod utils;
pub mod telemetry;
pub mod terminal;
pub mod config;
pub mod graph;
pub mod graph_requests;
pub mod human_input;
