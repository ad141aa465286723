//! Settings of the agent: the MCP servers it knows, logging, and the
//! execution engine, with their defaults and where they are looked for.

use vstd::prelude::*;
use crate::keyed::KeyedList;
use crate::text::{owned, strings_view};

verus! {

/// How the agent reaches an MCP server.
#[derive(Debug)]
pub struct McpServerSettings {
    /// The transport: `stdio` unless given.
    pub transport: String,
    /// The command that starts the server.
    pub command: Option<String>,
    /// Its arguments.
    pub args: Option<Vec<String>>,
    /// The server's URL.
    pub url: Option<String>,
    /// Environment variables for the server.
    pub env: Option<KeyedList<String>>,
    /// How to authenticate.
    pub auth: Option<McpServerAuthSettings>,
    /// How long to wait for a read, in seconds.
    pub read_timeout_seconds: Option<u64>,
}

/// How the agent authenticates with a server.
#[derive(Debug)]
pub struct McpServerAuthSettings {
    /// The kind of authentication.
    pub auth_type: String,
    /// An API key.
    pub api_key: Option<String>,
    /// A token.
    pub token: Option<String>,
    /// A user name.
    pub username: Option<String>,
    /// A password.
    pub password: Option<String>,
}

/// The servers the agent knows, by name.
#[derive(Debug)]
pub struct McpSettings {
    /// The servers.
    pub servers: KeyedList<McpServerSettings>,
}

impl Default for McpSettings {
    /// No servers.
    fn default() -> (r: Self)
        ensures
            r.servers.entries().len() == 0,
    {
        McpSettings { servers: KeyedList::new() }
    }
}

/// Where log files go.
#[derive(Debug)]
pub struct LogPathSettings {
    /// The pattern of log file paths.
    pub path_pattern: String,
    /// What makes each path unique.
    pub unique_id: String,
    /// The format of timestamps in paths.
    pub timestamp_format: Option<String>,
}

/// How the agent logs.
#[derive(Debug)]
pub struct LoggerSettings {
    /// Where logs go.
    pub transports: Vec<String>,
    /// The log level.
    pub level: String,
    /// The log file.
    pub path: Option<String>,
    /// Whether progress is shown.
    pub show_progress: bool,
    /// How log file paths are made.
    pub path_settings: Option<LogPathSettings>,
}

impl Default for LoggerSettings {
    /// No transports, an empty level, no file, no progress.
    fn default() -> (r: Self)
        ensures
            r.transports@.len() == 0,
            r.level@.len() == 0,
            r.path is None,
            !r.show_progress,
            r.path_settings is None,
    {
        LoggerSettings { transports: Vec::new(), level: String::new(), path: None, show_progress: false, path_settings: None }
    }
}

/// The agent's settings.
#[derive(Debug)]
pub struct Settings {
    /// The MCP servers.
    pub mcp: McpSettings,
    /// Logging.
    pub logger: LoggerSettings,
    /// The execution engine.
    pub execution_engine: String,
}

impl Settings {
    /// The settings used when no configuration file is found: no servers,
    /// default logging, the `asyncio` engine.
    pub fn fallback() -> (r: Settings)
        ensures
            r.mcp.servers.entries().len() == 0,
            r.logger.transports@.len() == 0 && r.logger.path is None && r.logger.level@.len() == 0,
            !r.logger.show_progress && r.logger.path_settings is None,
            r.execution_engine@ == "asyncio"@,
    {
        Settings { mcp: McpSettings::default(), logger: LoggerSettings::default(), execution_engine: owned("asyncio") }
    }
}

/// The transport used when none is configured.
pub fn default_transport() -> (r: String)
    ensures
        r@ == "stdio"@,
{
    owned("stdio")
}

/// The log level used when none is configured.
pub fn default_log_level() -> (r: String)
    ensures
        r@ == "info"@,
{
    owned("info")
}

/// The places a configuration file is looked for, in order.
pub fn default_config_paths() -> (r: Vec<String>)
    ensures
        strings_view(r@) == seq!["mcp_agent.config.yaml"@, "config/mcp_agent.config.yaml"@, "../mcp_agent.config.yaml"@],
{
    let mut v: Vec<String> = Vec::new();
    v.push(owned("mcp_agent.config.yaml"));
    v.push(owned("config/mcp_agent.config.yaml"));
    v.push(owned("../mcp_agent.config.yaml"));
    assert(strings_view(v@) =~= seq!["mcp_agent.config.yaml"@, "config/mcp_agent.config.yaml"@, "../mcp_agent.config.yaml"@]);
    v
}

/// The first of the candidate places that exists.
pub fn first_existing(exists: &Vec<bool>) -> (r: Option<usize>)
    ensures
        match r {
            Some(i) => i < exists@.len() && exists@[i as int] && forall|j: int| 0 <= j < i ==> !exists@[j],
            None => forall|j: int| 0 <= j < exists@.len() ==> !exists@[j],
        },
{
    let mut i: usize = 0;
    while i < exists.len()
        invariant
            i <= exists@.len(),
            forall|j: int| 0 <= j < i ==> !exists@[j],
        decreases exists.len() - i,
    {
        if exists[i] {
            return Some(i);
        }
        i = i + 1;
    }
    None
}

} // verus!
