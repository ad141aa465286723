use mcp_agent::mcp::server_registry::{ServerConfig, ServerRegistry, ServerSettings, Transport};
use mcp_agent::mcp::types::Message;
use mcp_agent::utils::error::{McpError, McpResult};

type InitHook = Box<dyn for<'a> Fn(&'a str, &'a Message) -> McpResult<()> + Send + Sync>;
type Registry = ServerRegistry<InitHook, (), ()>;

fn create_test_server_settings() -> ServerSettings {
    ServerSettings {
        name: Some("test".to_string()),
        description: Some("Test Server".to_string()),
        transport: Transport::Stdio,
        command: Some("echo".to_string()),
        args: Some(vec!["Hello".to_string()]),
        read_timeout_seconds: Some(10),
        url: None,
        auth: None,
        roots: None,
        env: None,
        auto_reconnect: Some(true),
        max_reconnect_attempts: Some(3),
        reconnect_delay_ms: Some(1000),
    }
}

#[test]
fn test_server_registry_creation() {
    let registry: Registry = ServerRegistry::new();
    assert_eq!(registry.get_server_names().len(), 0);
    assert_eq!(registry.init_hook_count(), 0);

    let mut registry: Registry = ServerRegistry::new();
    let config = ServerConfig::from_settings(create_test_server_settings());
    registry.register_server("test", config).unwrap();
    assert_eq!(registry.get_server_names().len(), 1);
    assert!(registry.get_server_config("test").is_ok());
}

#[test]
fn test_register_server() {
    let mut registry: Registry = ServerRegistry::new();
    let config = ServerConfig::from_settings(create_test_server_settings());
    registry.register_server("test", config).unwrap();
    assert!(registry.get_server_config("test").is_ok());
    let again = ServerConfig::from_settings(create_test_server_settings());
    let result = registry.register_server("test", again);
    assert!(result.is_err());
}

#[test]
fn test_register_init_hook() {
    let mut registry: Registry = ServerRegistry::new();
    let config = ServerConfig::from_settings(create_test_server_settings());
    registry.register_server("test", config).unwrap();

    let hook: InitHook = Box::new(move |_name, _msg| Ok(()));
    let result = registry.register_init_hook("nonexistent", hook);
    assert!(result.is_err());

    let hook: InitHook = Box::new(move |_name, _msg| Ok(()));
    registry.register_init_hook("test", hook).unwrap();
    assert_eq!(registry.init_hook_count(), 1);
    assert!(registry.has_init_hook("test"));
}

#[test]
fn config_defaults_fill_in() {
    let mut settings = create_test_server_settings();
    settings.read_timeout_seconds = None;
    settings.auto_reconnect = None;
    settings.max_reconnect_attempts = None;
    settings.reconnect_delay_ms = None;
    let config = ServerConfig::from_settings(settings);
    assert_eq!(config.read_timeout, 30);
    assert!(config.auto_reconnect);
    assert_eq!(config.max_reconnect_attempts, 3);
    assert_eq!(config.reconnect_delay, 1000);
}

#[test]
fn errors_name_the_server() {
    let mut registry: Registry = ServerRegistry::new();
    assert_eq!(
        registry.get_server_config("ghost").err(),
        Some(McpError::ServerNotFound("Server not found: ghost".to_string()))
    );
    registry.register_server("test", ServerConfig::from_settings(create_test_server_settings())).unwrap();
    assert_eq!(
        registry.register_server("test", ServerConfig::from_settings(create_test_server_settings())),
        Err(McpError::ServerNotFound("Server already registered: test".to_string()))
    );
}
