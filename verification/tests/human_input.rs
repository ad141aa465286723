use mcp_agent::human_input::console::ConsoleInputHandler;
use mcp_agent::human_input::types::{HumanInputRequest, HumanInputResponse};
use mcp_agent::json::JsonValue;
use mcp_agent::keyed::KeyedList;
use std::time::Duration;

#[test]
fn test_human_input_request_builder() {
    let request = HumanInputRequest::new("Test prompt")
        .with_description("Test description")
        .with_workflow_id("workflow-123")
        .with_timeout(30);
    assert_eq!(request.prompt, "Test prompt");
    assert_eq!(request.description, Some("Test description".to_string()));
    assert_eq!(request.workflow_id, Some("workflow-123".to_string()));
    assert_eq!(request.timeout_seconds, Some(30));
    assert_eq!(request.timeout().map(Duration::from_secs), Some(Duration::from_secs(30)));
}

#[test]
fn test_human_input_response_builder() {
    let response = HumanInputResponse::new("req-123", "Test response");
    assert_eq!(response.request_id, "req-123");
    assert_eq!(response.response, "Test response");
    assert!(response.metadata.is_none());
    let mut metadata: KeyedList<JsonValue> = KeyedList::new();
    metadata.insert("test_key".to_string(), JsonValue::String("test_value".to_string()));
    let response_with_metadata = response.with_metadata(metadata);
    assert_eq!(response_with_metadata.request_id, "req-123");
    assert_eq!(response_with_metadata.response, "Test response");
    assert_eq!(
        response_with_metadata.metadata.as_ref().unwrap().get("test_key"),
        Some(&JsonValue::String("test_value".to_string()))
    );
}

#[test]
fn console_prompt_layout() {
    let dashes = "\u{2500}".repeat(50);
    let plain = ConsoleInputHandler::without_color();
    let req = HumanInputRequest::new("Your name?").with_description("Identity").with_timeout(30);
    assert_eq!(
        plain.format_prompt(&req),
        format!("HUMAN INPUT NEEDED\n{}\nIdentity:\n\nYour name?\n\nTimeout: 30 seconds", dashes)
    );
    let bare = HumanInputRequest::new("Go?");
    assert_eq!(plain.format_prompt(&bare), format!("HUMAN INPUT NEEDED\n{}\nGo?", dashes));
    let colored = ConsoleInputHandler::new().format_prompt(&req);
    assert!(colored.contains("HUMAN INPUT NEEDED"));
    assert!(colored.contains("Your name?"));
    assert!(colored.contains("30 seconds"));
    assert!(!colored.contains("Identity:"));
}
