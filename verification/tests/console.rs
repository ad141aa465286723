use mcp_agent::json::JsonValue;
use mcp_agent::mock::mock_response;
use mcp_agent::telemetry::console::{parse_alert_command, AlertCommand};
use mcp_agent::text::{parse_unsigned, split_words};

#[test]
fn console_commands() {
    assert_eq!(parse_alert_command("   "), AlertCommand::Empty);
    assert_eq!(parse_alert_command("q"), AlertCommand::Quit);
    assert_eq!(parse_alert_command("  exit  "), AlertCommand::Quit);
    assert_eq!(parse_alert_command("s high_cpu"), AlertCommand::SuppressForSession("high_cpu".to_string()));
    assert_eq!(parse_alert_command("s"), AlertCommand::Usage("Usage: s <alert_id>".to_string()));
    assert_eq!(
        parse_alert_command("t high_cpu   30"),
        AlertCommand::SuppressTemporarily("high_cpu".to_string(), 30)
    );
    assert_eq!(
        parse_alert_command("t high_cpu soon"),
        AlertCommand::SuppressTemporarily("high_cpu".to_string(), 60)
    );
    assert_eq!(parse_alert_command("t high_cpu"), AlertCommand::Usage("Usage: t <alert_id> <seconds>".to_string()));
    assert_eq!(parse_alert_command("a x extra"), AlertCommand::Acknowledge("x".to_string()));
    assert_eq!(parse_alert_command("a"), AlertCommand::Usage("Usage: a <alert_id>".to_string()));
    assert_eq!(parse_alert_command("r"), AlertCommand::ResetSuppressions);
    assert_eq!(parse_alert_command("h"), AlertCommand::ShowActive);
    assert_eq!(parse_alert_command(" help me "), AlertCommand::Unknown("help me".to_string()));
}

#[test]
fn words_and_numbers() {
    assert_eq!(split_words("  a bb\tccc \n"), vec!["a".to_string(), "bb".to_string(), "ccc".to_string()]);
    assert!(split_words(" \t ").is_empty());
    assert_eq!(parse_unsigned("42", u64::MAX), Some(42));
    assert_eq!(parse_unsigned("+7", u64::MAX), Some(7));
    assert_eq!(parse_unsigned("18446744073709551615", u64::MAX), Some(u64::MAX));
    assert_eq!(parse_unsigned("18446744073709551616", u64::MAX), None);
    assert_eq!(parse_unsigned("256", 255), None);
    assert_eq!(parse_unsigned("", u64::MAX), None);
    assert_eq!(parse_unsigned("+", u64::MAX), None);
    assert_eq!(parse_unsigned("-1", u64::MAX), None);
    assert_eq!(parse_unsigned("1 ", u64::MAX), None);
    for s in ["0", "007", "+12", "x", "99999999999999999999", "3.5"] {
        assert_eq!(parse_unsigned(s, u64::MAX), s.parse::<u64>().ok());
    }
}

#[test]
fn mock_server_replies() {
    let echo = mock_response("please echo this", "T");
    assert_eq!(echo.get("data").and_then(|v| v.as_str()), Some("please echo this"));
    assert_eq!(echo.get("status").and_then(|v| v.as_str()), Some("ok"));
    let ping = mock_response("ping", "T");
    assert_eq!(ping.get("data").and_then(|v| v.as_str()), Some("pong"));
    let json = mock_response("give json", "2024-01-01T00:00:00+00:00");
    let data = json.get("data").unwrap();
    assert_eq!(data.get("timestamp").and_then(|v| v.as_str()), Some("2024-01-01T00:00:00+00:00"));
    assert_eq!(data.get("value"), Some(&JsonValue::Number("42".to_string())));
    let err = mock_response("error please", "T");
    assert_eq!(err.get("status").and_then(|v| v.as_str()), Some("error"));
    assert_eq!(err.get("code"), Some(&JsonValue::Number("400".to_string())));
    let other = mock_response("hello", "T");
    assert_eq!(other.get("data").and_then(|v| v.as_str()), Some("Received: hello"));
    assert_eq!(other.get("timestamp").and_then(|v| v.as_str()), Some("T"));
    let first_wins = mock_response("echo ping", "T");
    assert_eq!(first_wins.get("data").and_then(|v| v.as_str()), Some("echo ping"));
}
