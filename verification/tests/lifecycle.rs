use mcp_agent::json::JsonValue;
use mcp_agent::mcp::lifecycle::{ClientInfo, LifecycleManager, ServerCapabilities, SessionState};
use mcp_agent::utils::error::McpError;

fn session_params(id: &str) -> Option<JsonValue> {
    Some(JsonValue::Object(vec![("session_id".to_string(), JsonValue::String(id.to_string()))]))
}

#[test]
fn test_lifecycle_methods() {
    let mut lifecycle = LifecycleManager::new(ServerCapabilities::default());
    let request = LifecycleManager::create_initialize_request(ClientInfo {
        name: "Test Client".to_string(),
        version: "1.0".to_string(),
        protocol_version: "0.1".to_string(),
        required_primitives: vec![],
        custom: None,
    });
    assert_eq!(request.method, "initialize");
    let result = lifecycle.initialize_session("s1".to_string());
    assert_eq!(result.capabilities.name, "MCP Server");
    assert_eq!(lifecycle.get_session_state("s1"), Some(SessionState::Ready));

    let reply = lifecycle.shutdown(session_params("s1")).unwrap();
    assert_eq!(reply, JsonValue::Object(vec![("success".to_string(), JsonValue::Bool(true))]));
    assert_eq!(lifecycle.get_session_state("s1"), Some(SessionState::ShuttingDown));

    assert_eq!(lifecycle.exit(session_params("s1")), Ok(Some("s1".to_string())));
    assert_eq!(lifecycle.get_session_state("s1"), None);
}

#[test]
fn shutdown_rules() {
    let mut lifecycle = LifecycleManager::new(ServerCapabilities::default());
    assert_eq!(lifecycle.shutdown(None), Err(McpError::InvalidParams("Missing shutdown parameters".to_string())));
    assert_eq!(
        lifecycle.shutdown(Some(JsonValue::Object(vec![]))),
        Err(McpError::InvalidParams("Missing session_id parameter".to_string()))
    );
    assert_eq!(lifecycle.shutdown(session_params("x")), Err(McpError::NotFound("Session not found: x".to_string())));
    lifecycle.initialize_session("x".to_string());
    lifecycle.shutdown(session_params("x")).unwrap();
    assert_eq!(
        lifecycle.shutdown(session_params("x")),
        Err(McpError::InvalidState("Session not in Ready state".to_string()))
    );
    assert_eq!(lifecycle.exit(session_params("unknown")), Ok(None));
    assert_eq!(lifecycle.exit(None), Err(McpError::InvalidParams("Missing exit parameters".to_string())));
}
