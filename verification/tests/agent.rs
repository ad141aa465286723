use mcp_agent::json::JsonValue;
use mcp_agent::mcp::agent::{task_result, Agent, AgentConfig};
use mcp_agent::mcp::types::{Message, Priority};
use mcp_agent::utils::error::McpError;

#[test]
fn a_new_agent_has_nothing_to_report() {
    let agent = Agent::new(None);
    let stats = agent.get_stats();
    assert_eq!(stats.connections_count, 0);
    assert_eq!(stats.messages_sent, 0);
    assert_eq!(stats.connection_attempts, 0);
    assert!(agent.list_connections().is_empty());
    let config = AgentConfig::default();
    assert_eq!(config.request_timeout_secs, 0);
    assert!(!config.enable_auto_reconnect);
}

#[test]
fn connections_are_counted_and_listed() {
    let mut agent = Agent::new(None);
    assert_eq!(agent.connect_to_test_server("server1", "localhost:8080", Ok(())), Ok(()));
    assert_eq!(agent.connect_to_test_server("server2", "localhost:8081", Ok(())), Ok(()));
    let refused = McpError::ConnectionFailed("refused".to_string());
    assert_eq!(agent.connect_to_test_server("server3", "localhost:8082", Err(refused.clone())), Err(refused));
    assert_eq!(agent.connection_count(), 2);
    assert_eq!(agent.list_connections(), vec!["server1".to_string(), "server2".to_string()]);
    let stats = agent.get_stats();
    assert_eq!(stats.connection_attempts, 3);
    assert_eq!(stats.connection_successes, 2);
    assert_eq!(stats.connection_failures, 1);
    assert_eq!(agent.disconnect("server1"), Ok(()));
    assert_eq!(agent.disconnect("server1"), Ok(()));
    assert_eq!(agent.list_connections(), vec!["server2".to_string()]);
}

#[test]
fn messages_need_a_connection() {
    let mut agent = Agent::new(None);
    assert_eq!(agent.send_message("server1", Message::request(b"Hello".to_vec(), Priority::Normal)), Err(McpError::NotConnected));
    assert_eq!(agent.get_stats().operation_failures, 1);
    agent.connect_to_test_server("server1", "localhost:8080", Ok(())).unwrap();
    assert_eq!(agent.send_message("server1", Message::request(b"Hello".to_vec(), Priority::Normal)), Ok(()));
    assert_eq!(agent.send_message("server1", Message::request(b"again".to_vec(), Priority::Normal)), Ok(()));
    let stats = agent.get_stats();
    assert_eq!(stats.messages_sent, 2);
    assert_eq!(stats.operation_failures, 1);
}

#[test]
fn task_answers_carry_the_request_and_its_time() {
    let answer = task_result("r-1".to_string(), 42);
    let expected = JsonValue::Object(vec![
        ("execution_time_ms".to_string(), JsonValue::Number("42".to_string())),
        ("request_id".to_string(), JsonValue::String("r-1".to_string())),
        ("result".to_string(), JsonValue::String("dummy-value".to_string())),
        ("status".to_string(), JsonValue::String("success".to_string())),
    ]);
    assert_eq!(answer, expected);
    let agent = Agent::new(None);
    let (answer, ms) = agent.execute_task("example_task", &JsonValue::Null).unwrap();
    assert!(ms < 100);
    assert_eq!(answer.get("status"), Some(&JsonValue::String("success".to_string())));
    let id = answer.get("request_id").unwrap().as_str().unwrap();
    assert_eq!(id.len(), 36);
}
