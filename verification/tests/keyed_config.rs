use mcp_agent::config::{
    default_config_paths, default_log_level, default_transport, first_existing, LoggerSettings,
    McpSettings, Settings,
};
use mcp_agent::keyed::KeyedList;
use mcp_agent::llm::types::{Message, MessageRole};

#[test]
fn keyed_list_keeps_first_insertion_order() {
    let mut m: KeyedList<u32> = KeyedList::new();
    assert_eq!(m.insert("b".to_string(), 1), None);
    assert_eq!(m.insert("a".to_string(), 2), None);
    assert_eq!(m.insert("b".to_string(), 3), Some(1));
    assert_eq!(m.len(), 2);
    assert_eq!(m.get("b"), Some(&3));
    assert!(m.contains_key("a"));
    assert!(!m.contains_key("c"));
    let (k, v) = m.entry_at(0);
    assert_eq!((k.as_str(), *v), ("b", 3));
    assert_eq!(m.remove("b"), Some(3));
    assert_eq!(m.remove("b"), None);
    assert_eq!(m.len(), 1);
    assert_eq!(m.get("b"), None);
}

#[test]
fn settings_defaults() {
    assert_eq!(default_transport(), "stdio");
    assert_eq!(default_log_level(), "info");
    assert_eq!(
        default_config_paths(),
        vec![
            "mcp_agent.config.yaml".to_string(),
            "config/mcp_agent.config.yaml".to_string(),
            "../mcp_agent.config.yaml".to_string()
        ]
    );
    let s = Settings::fallback();
    assert_eq!(s.execution_engine, "asyncio");
    assert_eq!(s.mcp.servers.len(), 0);
    let l = LoggerSettings::default();
    assert_eq!(l.level, "");
    assert!(l.transports.is_empty() && l.path.is_none() && !l.show_progress);
    assert_eq!(McpSettings::default().servers.len(), 0);
}

#[test]
fn first_existing_config_path() {
    assert_eq!(first_existing(&vec![false, true, true]), Some(1));
    assert_eq!(first_existing(&vec![false, false]), None);
    assert_eq!(first_existing(&vec![]), None);
}

#[test]
fn llm_messages_and_roles() {
    let m = Message::user("hi");
    assert_eq!(m.role, MessageRole::User);
    assert_eq!(m.content, "hi");
    assert!(m.metadata.is_none());
    assert_eq!(Message::system("s").role, MessageRole::System);
    assert_eq!(Message::assistant("a").role, MessageRole::Assistant);
    assert_eq!(MessageRole::System.to_string(), "system");
    assert_eq!(MessageRole::Assistant.to_string(), "assistant");
    let with = Message::user("x").with_metadata(KeyedList::new());
    assert!(with.metadata.is_some());
}
