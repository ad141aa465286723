use mcp_agent::json::JsonValue;
use mcp_agent::mcp::agent::Agent;
use mcp_agent::terminal::{
    conclude, exec_args, help_text, parse_terminal_command, run_connect, run_disconnect, run_list, run_send,
    CommandResult, TerminalCommand,
};
use mcp_agent::utils::error::McpError;

#[test]
fn typed_lines_name_commands() {
    assert_eq!(parse_terminal_command("   "), TerminalCommand::Empty);
    assert_eq!(parse_terminal_command("help"), TerminalCommand::Help);
    assert_eq!(parse_terminal_command("quit"), TerminalCommand::Exit);
    assert_eq!(parse_terminal_command("exit now"), TerminalCommand::Exit);
    assert_eq!(parse_terminal_command("list"), TerminalCommand::List);
    assert_eq!(
        parse_terminal_command("connect s1 localhost:8080"),
        TerminalCommand::Connect("s1".to_string(), "localhost:8080".to_string())
    );
    assert_eq!(parse_terminal_command("disconnect s1"), TerminalCommand::Disconnect("s1".to_string()));
    assert_eq!(
        parse_terminal_command("send s1  hello   there"),
        TerminalCommand::Send("s1".to_string(), "hello there".to_string())
    );
    assert_eq!(
        parse_terminal_command("exec add {\"a\": 1}"),
        TerminalCommand::Exec("add".to_string(), "{\"a\": 1}".to_string())
    );
    assert_eq!(
        parse_terminal_command("stream test_stream_success 42"),
        TerminalCommand::Stream("test_stream_success".to_string(), "42".to_string())
    );
    assert_eq!(parse_terminal_command("launch x"), TerminalCommand::Unknown("launch".to_string()));
}

#[test]
fn missing_arguments_show_the_usage() {
    let usage = |s: &str| TerminalCommand::Usage(s.to_string());
    assert_eq!(parse_terminal_command("connect s1"), usage("Usage: connect <id> <address>"));
    assert_eq!(parse_terminal_command("disconnect"), usage("Usage: disconnect <id>"));
    assert_eq!(parse_terminal_command("send s1"), usage("Usage: send <id> <payload>"));
    assert_eq!(parse_terminal_command("exec f"), usage("Usage: exec <function> <args>"));
    assert_eq!(parse_terminal_command("stream"), usage("Usage: stream <function> <args>"));
}

#[test]
fn outcomes_are_printed() {
    let (result, line) = conclude(Ok(CommandResult::Success("done".to_string())));
    assert_eq!(result, CommandResult::Success("done".to_string()));
    assert_eq!(line, "Success: done");
    let (_, line) = conclude(Ok(CommandResult::Error("Usage: list".to_string())));
    assert_eq!(line, "Error: Usage: list");
    let (_, line) = conclude(Ok(CommandResult::Exit));
    assert_eq!(line, "Exiting...");
    let (result, line) = conclude(Err(McpError::NotConnected));
    assert_eq!(result, CommandResult::Error("Not connected".to_string()));
    assert_eq!(line, "Command error: Not connected");
    assert!(help_text().starts_with("\nAvailable commands:\n  help "));
    assert!(help_text().ends_with("  exit, quit              - Exit the terminal\n"));
}

#[test]
fn commands_act_on_the_agent() {
    let mut agent = Agent::new(None);
    assert_eq!(run_list(&agent), Ok(CommandResult::Success("No active connections".to_string())));
    assert_eq!(run_send(&mut agent, "s1", "hi"), Err(McpError::NotConnected));
    assert_eq!(
        run_connect(&mut agent, "s1", "localhost:1", Ok(())),
        Ok(CommandResult::Success("Connected to s1".to_string()))
    );
    assert_eq!(
        run_connect(&mut agent, "s2", "localhost:2", Err(McpError::Timeout)),
        Err(McpError::Timeout)
    );
    run_connect(&mut agent, "s3", "localhost:3", Ok(())).unwrap();
    assert_eq!(run_list(&agent), Ok(CommandResult::Success("Connected to 2 servers: s1, s3".to_string())));
    assert_eq!(run_send(&mut agent, "s1", "hi"), Ok(CommandResult::Success("Message sent to s1".to_string())));
    assert_eq!(agent.get_stats().messages_sent, 1);
    assert_eq!(run_disconnect(&mut agent, "s1"), Ok(CommandResult::Success("Disconnected from s1".to_string())));
    assert_eq!(run_list(&agent), Ok(CommandResult::Success("Connected to 1 servers: s3".to_string())));
}

#[test]
fn arguments_that_are_not_json_become_a_value() {
    let v = exec_args(None, "plain words".to_string());
    assert_eq!(v, JsonValue::Object(vec![("value".to_string(), JsonValue::String("plain words".to_string()))]));
    assert_eq!(exec_args(Some(JsonValue::Bool(true)), "true".to_string()), JsonValue::Bool(true));
}
