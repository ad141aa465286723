use mcp_agent::json::JsonValue;
use mcp_agent::mcp::tools::models::{Tool, ToolResult, ToolResultContent};
use mcp_agent::mcp::tools::provider::BasicToolProvider;
use mcp_agent::utils::error::{McpError, McpResult};

type Handler = Box<dyn Fn(&JsonValue) -> McpResult<ToolResult>>;

fn schema() -> JsonValue {
    JsonValue::Object(vec![("type".to_string(), JsonValue::String("object".to_string()))])
}

#[test]
fn test_tool_registration() {
    let mut provider: BasicToolProvider<Handler> = BasicToolProvider::new();
    let tool = Tool::new("test_tool", "A test tool", schema());
    provider
        .register_tool(
            tool,
            Box::new(|params: &JsonValue| {
                let input = params.get("input").and_then(|v| v.as_str()).unwrap_or("default");
                Ok(ToolResult::text(&format!("Processed: {}", input)))
            }),
        )
        .unwrap();
    let response = provider.list_tools(None).unwrap();
    assert_eq!(response.tools.len(), 1);
    assert_eq!(response.tools[0].name, "test_tool");
}

#[test]
fn test_tool_call() {
    let mut provider: BasicToolProvider<Handler> = BasicToolProvider::new();
    provider
        .register_tool(
            Tool::new("echo", "Echoes the input", schema()),
            Box::new(|params: &JsonValue| {
                let message = params.get("message").and_then(|v| v.as_str()).unwrap_or("");
                Ok(ToolResult::text(message))
            }),
        )
        .unwrap();
    let args = JsonValue::Object(vec![("message".to_string(), JsonValue::String("Hello, world!".to_string()))]);
    let result = provider.call_tool("echo", &args).unwrap();
    assert!(!result.is_error);
    match &result.content[0] {
        ToolResultContent::Text { text } => assert_eq!(text, "Hello, world!"),
        _ => panic!("expected text"),
    }
}

#[test]
fn test_unknown_tool() {
    let provider: BasicToolProvider<Handler> = BasicToolProvider::new();
    let result = provider.call_tool("unknown", &JsonValue::Null);
    assert!(matches!(result, Err(McpError::NotFound(_))), "Expected not found error, got: {:?}", result.is_ok());
    assert_eq!(result.err(), Some(McpError::NotFound("Tool 'unknown' not found".to_string())));
}

#[test]
fn test_tool_error() {
    let mut provider: BasicToolProvider<Handler> = BasicToolProvider::new();
    provider
        .register_tool(
            Tool::new("fallible", "A tool that can fail", schema()),
            Box::new(|params: &JsonValue| {
                if params.get("should_fail") == Some(&JsonValue::Bool(true)) {
                    Ok(ToolResult::error("Tool failed as requested"))
                } else {
                    Ok(ToolResult::text("Tool succeeded"))
                }
            }),
        )
        .unwrap();
    let fail = JsonValue::Object(vec![("should_fail".to_string(), JsonValue::Bool(true))]);
    assert!(provider.call_tool("fallible", &fail).unwrap().is_error);
    let ok = JsonValue::Object(vec![("should_fail".to_string(), JsonValue::Bool(false))]);
    assert!(!provider.call_tool("fallible", &ok).unwrap().is_error);
}

#[test]
fn unregister_removes_tool() {
    let mut provider: BasicToolProvider<Handler> = BasicToolProvider::new();
    provider.register_tool(Tool::new("t", "", schema()), Box::new(|_p: &JsonValue| Ok(ToolResult::text("x")))).unwrap();
    provider.unregister_tool("t").unwrap();
    assert_eq!(provider.list_tools(None).unwrap().tools.len(), 0);
    let r = ToolResult::text("a").with_text("b").with_image("data", "image/png");
    assert_eq!(r.content.len(), 3);
}
