use mcp_agent::json::JsonValue;
use mcp_agent::mcp::executor::{
    calculate_retry_delay, next_step, run_function, stream_results, AttemptOutcome, ExecutorConfig, FunctionRun,
    RetryStep, TaskResult, TaskTable,
};
use mcp_agent::utils::error::McpError;

#[test]
fn retry_delays_double_and_cap() {
    assert_eq!(calculate_retry_delay(1, 100, 10000), 100);
    assert_eq!(calculate_retry_delay(2, 100, 10000), 200);
    assert_eq!(calculate_retry_delay(4, 100, 10000), 800);
    assert_eq!(calculate_retry_delay(10, 100, 10000), 10000);
    assert_eq!(calculate_retry_delay(100, 100, u64::MAX), u64::MAX);
}

#[test]
fn retry_steps() {
    let config = ExecutorConfig::default();
    match next_step(&config, 1, AttemptOutcome::Failed(McpError::Timeout)) {
        RetryStep::RetryAfter(d) => assert_eq!(d, 100),
        _ => panic!("expected a retry"),
    }
    match next_step(&config, 4, AttemptOutcome::TimedOut) {
        RetryStep::Finish(Err(McpError::Timeout)) => {},
        _ => panic!("expected a time-out"),
    }
    match next_step(&config, 2, AttemptOutcome::Completed(TaskResult::Failure("f".to_string()))) {
        RetryStep::Finish(Ok(TaskResult::Failure(m))) => assert_eq!(m, "f"),
        _ => panic!("expected the result"),
    }
}

#[test]
fn test_execute_success() {
    let args = JsonValue::Object(vec![("value".to_string(), JsonValue::Number("42".to_string()))]);
    match run_function("test_success", args) {
        FunctionRun::Immediate(Ok(result)) => {
            assert!(result.is_success());
            assert_eq!(
                result.success_value(),
                Some(&JsonValue::Object(vec![("value".to_string(), JsonValue::Number("42".to_string()))]))
            );
        },
        _ => panic!("expected success"),
    }
}

#[test]
fn test_execute_failure() {
    match run_function("test_failure", JsonValue::Null) {
        FunctionRun::Immediate(Err(e)) => assert_eq!(e, McpError::Execution("Function failed".to_string())),
        _ => panic!("expected failure"),
    }
    match run_function("nope", JsonValue::Null) {
        FunctionRun::Immediate(Err(e)) => assert_eq!(e, McpError::Execution("Unknown function: nope".to_string())),
        _ => panic!("expected failure"),
    }
    assert!(matches!(run_function("test_timeout", JsonValue::Null), FunctionRun::AfterTimeout(_)));
}

#[test]
fn test_execute_stream() {
    let results = stream_results("test_stream_success", &JsonValue::Null);
    assert_eq!(results.len(), 5);
    assert!(results.iter().all(|r| r.is_success()));
    let results = stream_results("test_stream_failure", &JsonValue::Null);
    assert_eq!(results.len(), 4);
    assert_eq!(results[3].error_message(), Some("Stream task failed"));
}

#[test]
fn task_table_capacity() {
    let mut table: TaskTable<u8> = TaskTable::new();
    assert!(table.register_task("a".to_string(), 1, 1).is_ok());
    match table.register_task("b".to_string(), 2, 1) {
        Err((h, e)) => {
            assert_eq!(h, 2);
            assert_eq!(e, McpError::Execution("Maximum number of concurrent tasks (1) reached".to_string()));
        },
        Ok(()) => panic!("expected refusal"),
    }
    assert!(table.is_task_running("a"));
    assert_eq!(table.cancel_task("a"), Ok(1));
    assert_eq!(table.cancel_task("a"), Err(McpError::Execution("Task a not found".to_string())));
    assert_eq!(table.running_task_count(), 0);
}
