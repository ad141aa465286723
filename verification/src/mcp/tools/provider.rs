//! A tool provider that keeps its tools and their handlers by name.

use vstd::prelude::*;
use crate::json::JsonValue;
use crate::keyed::KeyedList;
use crate::mcp::tools::handler::ListToolsResponse;
use crate::mcp::tools::models::{same_tool, Tool, ToolResult};
use crate::text::{concat3, owned};
use crate::utils::error::{McpError, McpResult};

verus! {

/// The error for a name that no tool has.
pub open spec fn tool_not_found(name: Seq<char>) -> Seq<char> {
    "Tool '"@ + name + "' not found"@
}

/// Tools by name, each with the function that answers its calls.
#[derive(Debug)]
pub struct BasicToolProvider<H> {
    tools: KeyedList<Tool>,
    handlers: KeyedList<H>,
}

impl<H> BasicToolProvider<H> {
    /// The tool registered under `name`.
    pub closed spec fn tool(&self, name: Seq<char>) -> Option<Tool> {
        self.tools.spec_get(name)
    }

    /// The handler registered under `name`.
    pub closed spec fn handler(&self, name: Seq<char>) -> Option<H> {
        self.handlers.spec_get(name)
    }

    /// The registered tools, in order.
    pub closed spec fn tool_list(&self) -> Seq<Tool> {
        self.tools.entries().map_values(|e: (String, Tool)| e.1)
    }

    /// A provider without tools.
    pub fn new() -> (r: BasicToolProvider<H>)
        ensures
            forall|n: Seq<char>| r.tool(n) is None && r.handler(n) is None,
            r.tool_list().len() == 0,
    {
        BasicToolProvider { tools: KeyedList::new(), handlers: KeyedList::new() }
    }

    /// Registers `tool` under its name, answered by `handler`, in place of any
    /// tool of that name.
    pub fn register_tool(&mut self, tool: Tool, handler: H) -> (r: McpResult<()>)
        ensures
            r is Ok,
            final(self).tool(tool.name@) == Some(tool),
            final(self).handler(tool.name@) == Some(handler),
            forall|n: Seq<char>| n != tool.name@ ==> final(self).tool(n) == old(self).tool(n)
                && final(self).handler(n) == old(self).handler(n),
    {
        let name = tool.name.clone();
        let name2 = tool.name.clone();
        self.tools.insert(name, tool);
        self.handlers.insert(name2, handler);
        Ok(())
    }

    /// Removes the tool named `name` and its handler, if there is one.
    pub fn unregister_tool(&mut self, name: &str) -> (r: McpResult<()>)
        ensures
            r is Ok,
            final(self).tool(name@) is None,
            final(self).handler(name@) is None,
            forall|n: Seq<char>| n != name@ ==> final(self).tool(n) == old(self).tool(n)
                && final(self).handler(n) == old(self).handler(n),
    {
        let _ = self.tools.remove(name);
        let _ = self.handlers.remove(name);
        Ok(())
    }

    /// Copies of the registered tools, in order, on one page.
    pub fn list_tools(&self, cursor: Option<&str>) -> (r: McpResult<ListToolsResponse>)
        ensures
            r matches Ok(resp) && resp.next_cursor is None
                && resp.tools@.len() == self.tool_list().len()
                && forall|i: int| 0 <= i < resp.tools@.len() ==> same_tool(#[trigger] resp.tools@[i], self.tool_list()[i]),
    {
        let n = self.tools.len();
        let mut out: Vec<Tool> = Vec::new();
        let mut i: usize = 0;
        while i < n
            invariant
                i <= n,
                n == self.tool_list().len(),
                out@.len() == i,
                forall|j: int| 0 <= j < i ==> same_tool(#[trigger] out@[j], self.tool_list()[j]),
            decreases n - i,
        {
            let (_, t) = self.tools.entry_at(i);
            out.push(t.clone());
            i = i + 1;
        }
        Ok(ListToolsResponse { tools: out, next_cursor: None })
    }

    /// Calls the handler of the tool named `name` with `arguments`.
    pub fn call_tool(&self, name: &str, arguments: &JsonValue) -> (r: McpResult<ToolResult>)
        where H: Fn(&JsonValue) -> McpResult<ToolResult>,
        requires
            self.handler(name@) matches Some(h) ==> call_requires(h, (arguments,)),
        ensures
            match self.handler(name@) {
                None => r matches Err(McpError::NotFound(m)) && m@ == tool_not_found(name@),
                Some(h) => call_ensures(h, (arguments,), r),
            },
    {
        match self.handlers.get(name) {
            None => Err(McpError::NotFound(concat3("Tool '", name, "' not found"))),
            Some(h) => h(arguments),
        }
    }
}

} // verus!
