//! Tools: functions a language model can call, registered with a provider
//! and answered through the JSON-RPC methods `tools/list` and `tools/call`.

pub mod handler;
pub mod models;
pub mod provider;

pub use handler::{CallToolParams, ListToolsParams, ListToolsResponse, ToolsCapabilities};
pub use models::{ResourceContent, Tool, ToolResult, ToolResultContent};
pub use provider::BasicToolProvider;

use vstd::prelude::*;

verus! {

/// Sets up the tools system; there is nothing that can fail.
pub fn initialize() -> (r: Result<(), String>)
    ensures
        r is Ok,
{
    Ok(())
}

} // verus!
