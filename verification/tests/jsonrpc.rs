use mcp_agent::json::JsonValue;
use mcp_agent::mcp::jsonrpc::{response_outcome, IncomingMessage, JsonRpcHandler};
use mcp_agent::mcp::types::{JsonRpcError, JsonRpcNotification, JsonRpcRequest, JsonRpcResponse};
use mcp_agent::utils::error::{McpError, McpResult};

type Handler = Box<dyn Fn(Option<JsonValue>) -> McpResult<JsonValue>>;

#[test]
fn test_register_and_handle_method() {
    let mut handler: JsonRpcHandler<Handler, ()> = JsonRpcHandler::new();
    handler
        .register_method(
            "test.method",
            Box::new(|params: Option<JsonValue>| match params {
                Some(obj) => match obj.get("echo") {
                    Some(v) => Ok(v.clone()),
                    None => Ok(JsonValue::String("default".to_string())),
                },
                None => Ok(JsonValue::String("default".to_string())),
            }),
        )
        .unwrap();
    let params = JsonValue::Object(vec![("echo".to_string(), JsonValue::String("hello world".to_string()))]);
    let request = JsonRpcRequest::new("test.method", Some(params), JsonValue::String("1".to_string()));
    let response = handler.handle_request(request).unwrap();
    assert_eq!(response.jsonrpc, "2.0");
    assert_eq!(response.id, JsonValue::String("1".to_string()));
    assert!(response.error.is_none());
    assert_eq!(response.result.as_ref().unwrap(), &JsonValue::String("hello world".to_string()));
}

#[test]
fn test_method_not_found() {
    let handler: JsonRpcHandler<Handler, ()> = JsonRpcHandler::new();
    let request = JsonRpcRequest::new("nonexistent.method", None, JsonValue::String("1".to_string()));
    let response = handler.handle_request(request).unwrap();
    assert_eq!(response.jsonrpc, "2.0");
    assert_eq!(response.id, JsonValue::String("1".to_string()));
    assert_eq!(response.result, None);
    assert!(response.error.is_some());
    let error = response.error.unwrap();
    assert_eq!(error.code, -32601);
    assert_eq!(error.message, "Method 'nonexistent.method' not found");
}

#[test]
fn handler_errors_become_internal_errors() {
    let mut handler: JsonRpcHandler<Handler, ()> = JsonRpcHandler::new();
    handler.register_method("fail", Box::new(|_p: Option<JsonValue>| Err(McpError::Timeout))).unwrap();
    let response = handler.handle_request(JsonRpcRequest::new("fail", None, JsonValue::Null)).unwrap();
    let error = response.error.unwrap();
    assert_eq!(error.code, -32603);
    let mut bad = JsonRpcRequest::new("fail", None, JsonValue::Null);
    bad.jsonrpc = "1.0".to_string();
    let response = handler.handle_request(bad).unwrap();
    assert_eq!(response.error.unwrap().code, -32600);
}

#[test]
fn notifications_and_pending_responses() {
    let mut handler: JsonRpcHandler<Handler, u32> = JsonRpcHandler::new();
    assert!(handler.handle_notification(JsonRpcNotification::new("unknown", None)).is_ok());
    handler.add_pending("abc".to_string(), 7);
    let response = JsonRpcResponse::success(JsonValue::Bool(true), JsonValue::String("abc".to_string()));
    assert_eq!(handler.handle_response(&response), Ok(7));
    assert_eq!(
        handler.handle_response(&response),
        Err(McpError::InvalidState("No pending request found for response ID: abc".to_string()))
    );
    let numeric = JsonRpcResponse::success(JsonValue::Null, JsonValue::Number("1".to_string()));
    assert_eq!(handler.handle_response(&numeric), Err(McpError::InvalidMessage("Invalid response ID type".to_string())));
}

#[test]
fn response_outcomes() {
    let ok = JsonRpcResponse::success(JsonValue::Bool(true), JsonValue::Null);
    assert_eq!(response_outcome(ok), Ok(JsonValue::Bool(true)));
    let err = JsonRpcResponse::error(JsonRpcError::method_not_found("nope"), JsonValue::Null);
    assert_eq!(
        response_outcome(err),
        Err(McpError::Custom { code: (-32601i32) as u32, message: "nope".to_string() })
    );
}

#[test]
fn requests_are_answered_and_notifications_are_not() {
    let mut handler: JsonRpcHandler<Handler, ()> = JsonRpcHandler::new();
    handler.register_method("ping", Box::new(|_p: Option<JsonValue>| Ok(JsonValue::Bool(true)))).unwrap();
    handler
        .register_notification("fail", Box::new(|_p: Option<JsonValue>| Err(McpError::Timeout)))
        .unwrap();
    let request = JsonRpcRequest::new("ping", None, JsonValue::String("7".to_string()));
    let answer = handler.process_message(IncomingMessage::Request(request)).unwrap().unwrap();
    assert_eq!(answer.result, Some(JsonValue::Bool(true)));
    assert_eq!(answer.id, JsonValue::String("7".to_string()));
    let quiet = JsonRpcNotification::new("unknown", None);
    assert!(handler.process_message(IncomingMessage::Notification(quiet)).unwrap().is_none());
    let failing = JsonRpcNotification::new("fail", None);
    assert_eq!(handler.process_message(IncomingMessage::Notification(failing)).unwrap_err(), McpError::Timeout);
}
