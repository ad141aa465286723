use mcp_agent::mcp::transport::{next_reconnect, Reconnect};
use mcp_agent::mcp::error::{after_failure, CircuitBreaker, McpError, RetryDecision};
use mcp_agent::telemetry::alerts::{
    AlertOperator, AlertSeverity, AlertingConfig, SessionSuppression, TerminalAlertOptions,
};
use mcp_agent::utils::error::McpError as ProtocolError;

#[test]
fn breaker_opens_at_threshold_and_half_opens_after_timeout() {
    let mut b = CircuitBreaker::new(2, 1000);
    assert!(b.can_execute_at(0));
    b.record_failure_at(10);
    assert!(b.can_execute_at(20));
    b.record_failure_at(20);
    assert!(!b.can_execute_at(500));
    assert!(!b.can_execute_at(1019));
    assert!(b.can_execute_at(1020));
    assert!(b.can_execute_at(1021));
    b.record_success();
    assert!(b.can_execute_at(1022));
    b.record_failure_at(2000);
    assert!(b.can_execute_at(2001));
}

#[test]
fn breaker_with_clock() {
    let mut b = CircuitBreaker::new(1, 60_000);
    assert!(b.can_execute());
    b.record_failure();
    assert!(!b.can_execute());
    b.record_success();
    assert!(b.can_execute());
}

#[test]
fn connection_error_texts() {
    assert_eq!(McpError::Io("x".to_string()).to_string(), "IO error: x");
    assert_eq!(McpError::Protocol("p".to_string()).to_string(), "Protocol error: p");
    assert_eq!(McpError::Timeout.to_string(), "Operation timed out");
    assert_eq!(
        McpError::from_protocol_error(ProtocolError::InvalidMessage("m".to_string())),
        McpError::InvalidMessage("m".to_string())
    );
    assert_eq!(McpError::from_protocol_error(ProtocolError::Timeout), McpError::Timeout);
    assert_eq!(
        McpError::from_protocol_error(ProtocolError::NotImplemented),
        McpError::Protocol("Feature not implemented".to_string())
    );
}

#[test]
fn session_and_temporary_suppression() {
    let mut s = SessionSuppression::new();
    assert!(!s.is_suppressed_at("a", 0));
    s.suppress_for_session("a");
    assert!(s.is_suppressed_at("a", 123_456));
    s.suppress_temporarily_at("b", 100, 1000);
    assert!(s.is_suppressed_at("b", 1050));
    assert!(!s.is_suppressed_at("b", 1100));
    assert!(!s.is_suppressed_at("b", 1050));
    s.suppress_temporarily_at("c", u64::MAX, 5);
    assert!(s.is_suppressed_at("c", u64::MAX - 1));
    s.reset();
    assert!(!s.is_suppressed_at("a", 0));
    assert!(!s.is_suppressed_at("c", 6));
}

#[test]
fn cleaning_keeps_only_running_suppressions() {
    let mut s = SessionSuppression::new();
    s.suppress_temporarily_at("old", 10, 0);
    s.suppress_temporarily_at("new", 100, 0);
    s.clean_expired_suppressions_at(50);
    assert!(!s.is_suppressed_at("old", 5));
    assert!(s.is_suppressed_at("new", 60));
    let mut c = SessionSuppression::new();
    c.suppress_temporarily("t", 60_000);
    assert!(c.is_suppressed("t"));
}

#[test]
fn alert_labels_and_defaults() {
    assert_eq!(AlertSeverity::Info.to_string(), "INFO");
    assert_eq!(AlertSeverity::Critical.to_string(), "CRITICAL");
    assert_eq!(AlertOperator::GreaterThan.to_string(), ">");
    assert_eq!(AlertOperator::LessThanOrEqual.to_string(), "<=");
    let c = AlertingConfig::default();
    assert!(c.enabled && c.terminal_reporting);
    assert_eq!(c.default_cooldown, 300_000);
    assert_eq!(c.terminal_options, TerminalAlertOptions::default());
    assert!(!c.terminal_options.show_acknowledged);
}

#[test]
fn websocket_reconnection_policy() {
    assert_eq!(next_reconnect(0), Reconnect::After { attempt: 1, delay_ms: 1000 });
    assert_eq!(next_reconnect(4), Reconnect::After { attempt: 5, delay_ms: 5000 });
    assert_eq!(next_reconnect(5), Reconnect::GiveUp);
}

#[test]
fn retries_stop_after_the_last_attempt() {
    assert_eq!(after_failure(0, 3, "e".to_string()), RetryDecision::TryAgain { attempts: 1 });
    assert_eq!(after_failure(1, 3, "e".to_string()), RetryDecision::TryAgain { attempts: 2 });
    assert_eq!(
        after_failure(2, 3, "Persistent error".to_string()),
        RetryDecision::Exhausted(McpError::RetryExhausted("Persistent error".to_string()))
    );
    assert_eq!(after_failure(0, 0, "e".to_string()), RetryDecision::Exhausted(McpError::RetryExhausted("e".to_string())));
}
