//! The parameters and results of the tools methods, and the capabilities a
//! server offers for them.

use vstd::prelude::*;
use crate::json::JsonValue;
use crate::mcp::tools::models::Tool;

verus! {

/// The parameters of `tools/list`.
#[derive(Debug)]
pub struct ListToolsParams {
    /// Where the page starts.
    pub cursor: Option<String>,
}

/// The answer to `tools/list`.
#[derive(Debug)]
pub struct ListToolsResponse {
    /// The tools on this page.
    pub tools: Vec<Tool>,
    /// Where the next page starts, if there is one.
    pub next_cursor: Option<String>,
}

/// The parameters of `tools/call`.
#[derive(Debug)]
pub struct CallToolParams {
    /// The tool's name.
    pub name: String,
    /// The arguments of the call.
    pub arguments: JsonValue,
}

/// Which tools features a server offers.
#[derive(Debug, Clone, Copy, PartialEq, Eq)]
pub struct ToolsCapabilities {
    /// The server announces changes of the tool list.
    pub list_changed: bool,
}

} // verus!
