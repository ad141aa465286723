use mcp_agent::json::JsonValue;
use mcp_agent::mcp::schema::{batch_outcome, SchemaValidator};
use mcp_agent::utils::error::McpError;

fn s(t: &str) -> JsonValue {
    JsonValue::String(t.to_string())
}

fn obj(members: Vec<(&str, JsonValue)>) -> JsonValue {
    JsonValue::Object(members.into_iter().map(|(k, v)| (k.to_string(), v)).collect())
}

#[test]
fn test_valid_request() {
    let validator = SchemaValidator::new();
    let request = obj(vec![
        ("jsonrpc", s("2.0")),
        ("method", s("test_method")),
        ("params", obj(vec![("key", s("value"))])),
        ("id", s("1")),
    ]);
    assert!(validator.validate_request(&request).is_ok());
}

#[test]
fn test_invalid_request() {
    let validator = SchemaValidator::new();
    let request = obj(vec![("jsonrpc", s("1.0")), ("method", s("test_method")), ("id", s("1"))]);
    assert!(validator.validate_request(&request).is_err());
}

#[test]
fn test_valid_response() {
    let validator = SchemaValidator::new();
    let response = obj(vec![
        ("jsonrpc", s("2.0")),
        ("result", obj(vec![("key", s("value"))])),
        ("id", s("1")),
    ]);
    assert!(validator.validate_response(&response).is_ok());
}

#[test]
fn test_valid_error_response() {
    let validator = SchemaValidator::new();
    let response = obj(vec![
        ("jsonrpc", s("2.0")),
        ("error", obj(vec![("code", JsonValue::Number("-32600".to_string())), ("message", s("Invalid Request"))])),
        ("id", s("1")),
    ]);
    assert!(validator.validate_response(&response).is_ok());
}

#[test]
fn test_invalid_response() {
    let validator = SchemaValidator::new();
    let response = obj(vec![
        ("jsonrpc", s("2.0")),
        ("result", obj(vec![("key", s("value"))])),
        ("error", obj(vec![("code", JsonValue::Number("-32600".to_string())), ("message", s("Invalid Request"))])),
        ("id", s("1")),
    ]);
    assert!(validator.validate_response(&response).is_err());
}

#[test]
fn test_valid_notification() {
    let validator = SchemaValidator::new();
    let notification = obj(vec![
        ("jsonrpc", s("2.0")),
        ("method", s("test_notification")),
        ("params", obj(vec![("key", s("value"))])),
    ]);
    assert!(validator.validate_notification(&notification).is_ok());
}

#[test]
fn test_invalid_notification() {
    let validator = SchemaValidator::new();
    let notification = obj(vec![("jsonrpc", s("2.0")), ("method", s("test_notification")), ("id", s("1"))]);
    assert!(validator.validate_notification(&notification).is_err());
}

#[test]
fn test_valid_batch() {
    let validator = SchemaValidator::new();
    let batch = JsonValue::Array(vec![
        obj(vec![
            ("jsonrpc", s("2.0")),
            ("method", s("test_method")),
            ("params", obj(vec![("key", s("value"))])),
            ("id", s("1")),
        ]),
        obj(vec![
            ("jsonrpc", s("2.0")),
            ("method", s("test_notification")),
            ("params", obj(vec![("key", s("value"))])),
        ]),
    ]);
    assert!(validator.validate_batch(&batch).is_ok());
}

#[test]
fn test_invalid_batch() {
    let validator = SchemaValidator::new();
    let batch = JsonValue::Array(vec![
        obj(vec![
            ("jsonrpc", s("2.0")),
            ("method", s("test_method")),
            ("params", obj(vec![("key", s("value"))])),
            ("id", s("1")),
        ]),
        obj(vec![("jsonrpc", s("1.0")), ("method", s("test_notification"))]),
    ]);
    assert!(validator.validate_batch(&batch).is_err());
}

#[test]
fn test_empty_batch() {
    let validator = SchemaValidator::new();
    let batch = JsonValue::Array(vec![]);
    assert!(validator.validate_batch(&batch).is_err());
}

#[test]
fn batch_errors_name_the_failing_item() {
    assert_eq!(batch_outcome(false, 0, &vec![]), Err(McpError::ValidationError("Batch must be an array".to_string())));
    assert_eq!(batch_outcome(true, 0, &vec![]), Err(McpError::ValidationError("Batch cannot be empty".to_string())));
    assert_eq!(
        batch_outcome(true, 3, &vec![true, false]),
        Err(McpError::ValidationError("Invalid item at index 1: neither a valid request nor a notification".to_string()))
    );
    assert_eq!(batch_outcome(true, 2, &vec![true, true]), Ok(()));
}
