use mcp_agent::mcp::prompts::interactive::{MenuGroup, MenuOption, SlashCommand};
use mcp_agent::mcp::prompts::manager::{initialize, PromptManager};
use mcp_agent::mcp::prompts::template::PromptTemplate;
use mcp_agent::mcp::prompts::types::{PromptParameter, PromptParameters};
use mcp_agent::utils::error::McpError;

#[test]
fn slash_command_matching() {
    let cmd = SlashCommand::new("1", "deploy", "Deploy code", "deploy_prompt");
    assert!(cmd.matches("/deploy"));
    assert!(cmd.matches("  /deploy now  "));
    assert!(!cmd.matches("/deployer"));
    assert!(!cmd.matches("deploy"));
    assert_eq!(cmd.extract_args("/deploy   main.rs  "), Some("main.rs".to_string()));
    assert_eq!(cmd.extract_args("/deploy"), None);
    assert_eq!(cmd.extract_args("/other x"), None);
    assert_eq!(cmd.to_string(), "/deploy - Deploy code");
}

#[test]
fn menu_builders() {
    let option = MenuOption::new("o", "Open", "Opens", "p").with_icon("*").with_group("g");
    assert_eq!(option.icon, Some("*".to_string()));
    assert_eq!(option.group, Some("g".to_string()));
    let mut group = MenuGroup::new("g", "Group");
    group.add_option(option);
    assert_eq!(group.options.len(), 1);
}

#[test]
fn parameters_last_pair_wins() {
    let p = PromptParameters::from_list(&[("a", "1"), ("b", "2"), ("a", "3")]);
    assert_eq!(p.get("a"), Some(&"3".to_string()));
    assert_eq!(p.get("b"), Some(&"2".to_string()));
    assert_eq!(p.get("c"), None);
}

#[test]
fn enumeration_defaults_to_first() {
    let p = PromptParameter::enumeration("lang", "Language", vec!["rust", "go"]);
    assert!(p.required);
    assert_eq!(p.default_value, Some("rust".to_string()));
    assert_eq!(p.enum_values, Some(vec!["rust".to_string(), "go".to_string()]));
}

#[test]
fn extract_parameters_in_order() {
    let t = PromptTemplate::new("t", "Hi {{ name }}, {{greeting}}! {{unclosed");
    assert_eq!(t.extract_parameters(), vec!["name".to_string(), "greeting".to_string()]);
}

#[test]
fn render_uses_defaults_and_supplied_values() {
    let t = PromptTemplate::with_details(
        "t",
        "T",
        "",
        "{{greeting}}, {{name}}!",
        vec![PromptParameter::optional("greeting", "", "Hello"), PromptParameter::required("name", "")],
        "1.0",
        "general",
    );
    let rendered = t.render(&PromptParameters::from_list(&[("name", "Ada")])).unwrap();
    assert_eq!(rendered.text, "Hello, Ada!");
    let rendered = t.render(&PromptParameters::from_list(&[("name", "Ada"), ("greeting", "Hi")])).unwrap();
    assert_eq!(rendered.text, "Hi, Ada!");
}

#[test]
fn validation_errors() {
    let t = PromptTemplate::with_details(
        "t",
        "T",
        "",
        "{{x}}",
        vec![PromptParameter::required("x", ""), PromptParameter::enumeration("y", "", vec!["a", "b"])],
        "1.0",
        "general",
    );
    assert_eq!(
        t.validate_parameters(&PromptParameters::new()),
        Err(McpError::ValidationError("Missing required parameter: x".to_string()))
    );
    assert_eq!(
        t.validate_parameters(&PromptParameters::from_list(&[("x", "1"), ("y", "c")])),
        Err(McpError::ValidationError("Invalid value for parameter y: c. Expected one of: [\"a\", \"b\"]".to_string()))
    );
    assert!(t.validate_parameters(&PromptParameters::from_list(&[("x", "1"), ("y", "b")])).is_ok());
}

#[test]
fn manager_register_get_remove() {
    let mut m = PromptManager::new();
    m.register_template(PromptTemplate::new("greet", "Hello {{who}}")).unwrap();
    assert_eq!(m.get_template("greet").unwrap().template, "Hello {{who}}");
    assert_eq!(m.list_templates(), vec!["greet".to_string()]);
    let r = m.render_prompt("greet", &PromptParameters::from_list(&[("who", "you")])).unwrap();
    assert_eq!(r.text, "Hello you");
    m.remove_template("greet").unwrap();
    assert_eq!(
        m.get_template("greet").err(),
        Some(McpError::NotFound("Template not found: greet".to_string()))
    );
    assert_eq!(m.remove_template("greet"), Err(McpError::NotFound("Template not found: greet".to_string())));
}

#[test]
fn defaults_are_registered() {
    let m = initialize().unwrap();
    let r = m
        .render_prompt("commit_message", &PromptParameters::from_list(&[("diff", "+x")]))
        .unwrap();
    assert_eq!(r.text, "Generate a commit message for the following changes:\n\n```diff\n+x\n```");
    assert!(m.get_template("code_analysis").is_ok());
}

#[test]
fn default_templates_have_their_texts() {
    let m = initialize().unwrap();
    let t = m.get_template("code_analysis").unwrap();
    assert_eq!(t.name, "Code Analysis");
    assert_eq!(t.parameters.len(), 3);
    assert_eq!(t.parameters[2].default_value, Some("errors,performance,security".to_string()));
    let c = m.get_template("commit_message").unwrap();
    assert_eq!(c.template, "Generate a commit message for the following changes:\n\n```diff\n{{diff}}\n```");
    assert_eq!(m.list_templates().len(), 2);
}
