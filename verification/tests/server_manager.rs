use mcp_agent::config::{LoggerSettings, McpServerSettings, McpSettings, Settings};
use mcp_agent::mcp::server_manager::{ServerManager, ServerSettings};
use mcp_agent::utils::error::McpError;

type Manager = ServerManager<(), (), ()>;

#[test]
fn test_server_manager_creation() {
    let mut manager = Manager::new();
    let settings = ServerSettings {
        transport: "stdio".to_string(),
        command: Some("echo".to_string()),
        args: Some(vec!["Hello".to_string()]),
        url: None,
        env: None,
        auth: None,
        read_timeout_seconds: Some(5),
        auto_reconnect: true,
        max_reconnect_attempts: 3,
    };
    manager.register_server("test", settings).unwrap();
    let names = manager.get_server_names();
    assert_eq!(names.len(), 1);
    assert_eq!(names[0], "test");
}

#[test]
fn test_from_config() {
    let mut manager = Manager::new();
    let mut config = Settings {
        mcp: McpSettings::default(),
        logger: LoggerSettings::default(),
        execution_engine: "tokio".to_string(),
    };
    let server_config = McpServerSettings {
        transport: "stdio".to_string(),
        command: Some("echo".to_string()),
        args: Some(vec!["test".to_string()]),
        url: None,
        env: None,
        auth: None,
        read_timeout_seconds: Some(5),
    };
    config.mcp.servers.insert("test-server".to_string(), server_config);
    let server_settings = ServerSettings {
        transport: "stdio".to_string(),
        command: Some("echo".to_string()),
        args: Some(vec!["test".to_string()]),
        url: None,
        env: None,
        auth: None,
        read_timeout_seconds: Some(5),
        auto_reconnect: true,
        max_reconnect_attempts: 3,
    };
    manager.register_server("test-server", server_settings).unwrap();
    let names = manager.get_server_names();
    assert!(names.contains(&"test-server".to_string()));
}

#[test]
fn duplicate_server_names_are_refused() {
    let mut manager = Manager::new();
    let settings = || ServerSettings {
        transport: "stdio".to_string(),
        command: Some("echo".to_string()),
        args: None,
        url: None,
        env: None,
        auth: None,
        read_timeout_seconds: None,
        auto_reconnect: false,
        max_reconnect_attempts: 0,
    };
    manager.register_server("a", settings()).unwrap();
    assert_eq!(
        manager.register_server("a", settings()),
        Err(McpError::Config("Server 'a' already registered".to_string()))
    );
    manager.register_server("b", settings()).unwrap();
    assert_eq!(manager.get_server_names(), vec!["a".to_string(), "b".to_string()]);
}

#[test]
fn servers_load_from_configuration() {
    let mut manager = Manager::new();
    let server = |cmd: &str| McpServerSettings {
        transport: "stdio".to_string(),
        command: Some(cmd.to_string()),
        args: None,
        url: None,
        env: None,
        auth: None,
        read_timeout_seconds: Some(9),
    };
    manager.load_servers(vec![("x".to_string(), server("one")), ("y".to_string(), server("two"))]);
    let names = manager.get_server_names();
    assert!(names.contains(&"x".to_string()) && names.contains(&"y".to_string()));
    assert_eq!(manager.server_settings("y").unwrap().command, Some("two".to_string()));
    assert!(manager.server_settings("z").is_err());
}
