//! The registry of servers: their configurations, start hooks and
//! connections, and when a lost connection is re-established.

use vstd::prelude::*;
use crate::keyed::KeyedList;
use crate::mcp::prompts::types::clone_strings;
use crate::mcp::server_manager::pairs_view;
use crate::mcp::types::{Message, MessageType, Priority};
use crate::text::{concat2, concat3, owned, strings_view};
use crate::utils::error::{McpError, McpResult};

verus! {

/// How the agent authenticates with a server.
#[derive(Debug)]
pub struct ServerAuthSettings {
    /// An API key.
    pub api_key: Option<String>,
}

/// A root a server may access.
#[derive(Debug)]
pub struct RootSettings {
    /// The root's URI.
    pub uri: String,
    /// Its name.
    pub name: Option<String>,
    /// The URI the server knows it by.
    pub server_uri_alias: Option<String>,
}

/// How the agent talks to a server.
#[derive(Debug, Clone, Copy, PartialEq, Eq)]
pub enum Transport {
    /// Over the standard input and output of a process.
    Stdio,
    /// Over server-sent events.
    Sse,
}

/// A server as configured.
#[derive(Debug)]
pub struct ServerSettings {
    /// Its name.
    pub name: Option<String>,
    /// What it is.
    pub description: Option<String>,
    /// How to talk to it.
    pub transport: Transport,
    /// The command that starts it.
    pub command: Option<String>,
    /// Its arguments.
    pub args: Option<Vec<String>>,
    /// How long to wait for a read, in seconds.
    pub read_timeout_seconds: Option<u64>,
    /// Its URL.
    pub url: Option<String>,
    /// How to authenticate.
    pub auth: Option<ServerAuthSettings>,
    /// The roots it may access.
    pub roots: Option<Vec<RootSettings>>,
    /// Environment variables for it.
    pub env: Option<KeyedList<String>>,
    /// Whether a lost connection is re-established.
    pub auto_reconnect: Option<bool>,
    /// How many times it is re-established at most.
    pub max_reconnect_attempts: Option<u32>,
    /// How long to wait before re-establishing it, in milliseconds.
    pub reconnect_delay_ms: Option<u64>,
}

/// The servers of a configuration file, by name.
#[derive(Debug)]
pub struct McpSettings {
    /// The servers.
    pub servers: KeyedList<ServerSettings>,
}

/// A server's configuration with every default filled in.
#[derive(Debug)]
pub struct ServerConfig {
    /// The command that starts it.
    pub command: String,
    /// Its arguments.
    pub args: Vec<String>,
    /// Environment variables for it.
    pub env: KeyedList<String>,
    /// How long to wait for a read, in seconds.
    pub read_timeout: u64,
    /// How to talk to it.
    pub transport: Transport,
    /// Its URL.
    pub url: Option<String>,
    /// Whether a lost connection is re-established.
    pub auto_reconnect: bool,
    /// How many times it is re-established at most.
    pub max_reconnect_attempts: u32,
    /// How long to wait before re-establishing it, in milliseconds.
    pub reconnect_delay: u64,
}

impl ServerConfig {
    /// The configuration of a server as configured: no command or arguments
    /// or variables when none are given, 30 seconds to read, reconnecting up
    /// to three times a second apart.
    pub fn from_settings(settings: ServerSettings) -> (r: ServerConfig)
        ensures
            r.command@ == match settings.command { Some(c) => c@, None => Seq::<char>::empty() },
            r.args@ == match settings.args { Some(a) => a@, None => Seq::<String>::empty() },
            r.env.entries() == match settings.env { Some(e) => e.entries(), None => Seq::<(String, String)>::empty() },
            r.read_timeout == match settings.read_timeout_seconds { Some(t) => t, None => 30 },
            r.transport == settings.transport,
            r.url == settings.url,
            r.auto_reconnect == match settings.auto_reconnect { Some(b) => b, None => true },
            r.max_reconnect_attempts == match settings.max_reconnect_attempts { Some(n) => n, None => 3 },
            r.reconnect_delay == match settings.reconnect_delay_ms { Some(d) => d, None => 1000 },
    {
        ServerConfig {
            command: match settings.command { Some(c) => c, None => String::new() },
            args: match settings.args { Some(a) => a, None => Vec::new() },
            env: match settings.env { Some(e) => e, None => KeyedList::new() },
            read_timeout: match settings.read_timeout_seconds { Some(t) => t, None => 30 },
            transport: settings.transport,
            url: settings.url,
            auto_reconnect: match settings.auto_reconnect { Some(b) => b, None => true },
            max_reconnect_attempts: match settings.max_reconnect_attempts { Some(n) => n, None => 3 },
            reconnect_delay: match settings.reconnect_delay_ms { Some(d) => d, None => 1000 },
        }
    }
}

/// How a registered server is launched.
#[derive(Debug)]
pub enum LaunchPlan {
    /// Run the command with exactly this environment and talk over its
    /// standard input and output.
    Stdio {
        /// The command.
        command: String,
        /// Its arguments.
        args: Vec<String>,
        /// Its whole environment, in order.
        env: Vec<(String, String)>,
        /// The read time-out in seconds.
        read_timeout: u64,
    },
    /// Connect to server-sent events at the URL.
    Sse {
        /// The URL.
        url: String,
        /// The read time-out in seconds.
        read_timeout: u64,
    },
}

/// What getting a connection to a server takes.
#[derive(Debug, Clone, Copy, PartialEq, Eq)]
pub enum ConnectionStep {
    /// The current connection serves.
    Reuse,
    /// The lost connection is re-established.
    Reconnect,
    /// A first connection is made.
    Create,
}

/// What is known of the connection to one server.
#[derive(Debug)]
pub struct ConnectionInfo<C> {
    /// The connection, while there is one.
    pub connection: Option<C>,
    /// The attempts made to connect.
    pub attempts: u32,
    /// Whether a lost connection is re-established.
    pub auto_reconnect: bool,
    /// How many times it is re-established at most.
    pub max_reconnect_attempts: u32,
}

/// The registered servers, their start hooks, the connections made to them
/// and the servers started.
#[derive(Debug)]
pub struct ServerRegistry<H, C, S> {
    servers: KeyedList<ServerConfig>,
    init_hooks: KeyedList<H>,
    active_connections: KeyedList<ConnectionInfo<C>>,
    active_servers: KeyedList<S>,
}

impl<H, C, S> ServerRegistry<H, C, S> {
    /// The configuration of the server `name`.
    pub closed spec fn config(&self, name: Seq<char>) -> Option<ServerConfig> {
        self.servers.spec_get(name)
    }

    /// The registered names, in order.
    pub closed spec fn names(&self) -> Seq<Seq<char>> {
        self.servers.names()
    }

    /// The start hook of the server `name`.
    pub closed spec fn hook(&self, name: Seq<char>) -> Option<H> {
        self.init_hooks.spec_get(name)
    }

    /// The number of start hooks.
    pub closed spec fn hook_count(&self) -> nat {
        self.init_hooks.entries().len()
    }

    /// What is known of the connection to the server `name`.
    pub closed spec fn connection_info(&self, name: Seq<char>) -> Option<ConnectionInfo<C>> {
        self.active_connections.spec_get(name)
    }

    /// The started server `name`.
    pub closed spec fn server(&self, name: Seq<char>) -> Option<S> {
        self.active_servers.spec_get(name)
    }

    /// A registry without servers.
    pub fn new() -> (r: ServerRegistry<H, C, S>)
        ensures
            r.names().len() == 0,
            r.hook_count() == 0,
            forall|n: Seq<char>| r.config(n) is None && r.hook(n) is None && r.connection_info(n) is None && r.server(n) is None,
    {
        ServerRegistry {
            servers: KeyedList::new(),
            init_hooks: KeyedList::new(),
            active_connections: KeyedList::new(),
            active_servers: KeyedList::new(),
        }
    }

    /// Registers the server `name`; a name already registered is refused.
    pub fn register_server(&mut self, name: &str, config: ServerConfig) -> (r: McpResult<()>)
        ensures
            old(self).config(name@) is Some ==> (r matches Err(McpError::ServerNotFound(m))
                && m@ == "Server already registered: "@ + name@)
                && forall|n: Seq<char>| final(self).config(n) == old(self).config(n),
            old(self).config(name@) is None ==> r is Ok && final(self).config(name@) == Some(config)
                && forall|n: Seq<char>| n != name@ ==> final(self).config(n) == old(self).config(n),
            forall|n: Seq<char>| final(self).hook(n) == old(self).hook(n),
            final(self).hook_count() == old(self).hook_count(),
    {
        if self.servers.contains_key(name) {
            return Err(McpError::ServerNotFound(concat2("Server already registered: ", name)));
        }
        let _ = self.servers.insert(owned(name), config);
        Ok(())
    }

    /// Registers the hook run when the server `name` starts; the server must
    /// be registered.
    pub fn register_init_hook(&mut self, name: &str, hook: H) -> (r: McpResult<()>)
        ensures
            old(self).config(name@) is None ==> (r matches Err(McpError::ServerNotFound(m))
                && m@ == "Server not found: "@ + name@)
                && forall|n: Seq<char>| final(self).hook(n) == old(self).hook(n),
            old(self).config(name@) is None ==> final(self).hook_count() == old(self).hook_count(),
            old(self).config(name@) is Some ==> r is Ok && final(self).hook(name@) == Some(hook)
                && forall|n: Seq<char>| n != name@ ==> final(self).hook(n) == old(self).hook(n),
            old(self).config(name@) is Some && old(self).hook(name@) is None ==> final(self).hook_count() == old(self).hook_count() + 1,
            forall|n: Seq<char>| final(self).config(n) == old(self).config(n),
    {
        if !self.servers.contains_key(name) {
            return Err(McpError::ServerNotFound(concat2("Server not found: ", name)));
        }
        let _ = self.init_hooks.insert(owned(name), hook);
        proof {
            assert(crate::keyed::names_of(self.init_hooks.entries()).len() == self.init_hooks.entries().len());
        }
        Ok(())
    }

    /// Whether the server `name` has a start hook.
    pub fn has_init_hook(&self, name: &str) -> (r: bool)
        ensures
            r == self.hook(name@) is Some,
    {
        self.init_hooks.contains_key(name)
    }

    /// The number of start hooks.
    pub fn init_hook_count(&self) -> (r: usize)
        ensures
            r == self.hook_count(),
    {
        self.init_hooks.len()
    }

    /// The start hook of the server `name`.
    pub fn init_hook(&self, name: &str) -> (r: Option<&H>)
        ensures
            match self.hook(name@) {
                Some(h) => r == Some(&h),
                None => r is None,
            },
    {
        self.init_hooks.get(name)
    }

    /// The configuration of the server `server_name`.
    pub fn get_server_config(&self, server_name: &str) -> (r: McpResult<&ServerConfig>)
        ensures
            match self.config(server_name@) {
                Some(c) => r == Ok::<&ServerConfig, McpError>(&c),
                None => r matches Err(McpError::ServerNotFound(m)) && m@ == "Server not found: "@ + server_name@,
            },
    {
        match self.servers.get(server_name) {
            Some(c) => Ok(c),
            None => Err(McpError::ServerNotFound(concat2("Server not found: ", server_name))),
        }
    }

    /// The names of the registered servers.
    pub fn get_server_names(&self) -> (r: Vec<String>)
        ensures
            strings_view(r@) == self.names(),
    {
        self.servers.key_list()
    }

    /// The current connection to the server `name`, if there is one.
    pub fn current_connection(&self, name: &str) -> (r: Option<&C>)
        ensures
            match self.connection_info(name@) {
                Some(info) => match info.connection {
                    Some(c) => r == Some(&c),
                    None => r is None,
                },
                None => r is None,
            },
    {
        match self.active_connections.get(name) {
            Some(info) => match &info.connection {
                Some(c) => Some(c),
                None => None,
            },
            None => None,
        }
    }

    /// The first step of getting a connection to the server `name`, given
    /// whether its current connection (if any) is still connected: it is
    /// reused while connected; once lost it is re-established while automatic
    /// reconnection allows another attempt, the attempt counted and the
    /// connection dropped; otherwise the loss is an error. Without a current
    /// connection a first one is made for a registered server.
    pub fn connection_step(&mut self, name: &str, connected: bool) -> (r: McpResult<ConnectionStep>)
        ensures
            match old(self).connection_info(name@) {
                Some(info) if info.connection is Some => {
                    if connected {
                        r == Ok::<ConnectionStep, McpError>(ConnectionStep::Reuse)
                            && final(self).connection_info(name@) == old(self).connection_info(name@)
                    } else if info.auto_reconnect && info.attempts < info.max_reconnect_attempts {
                        r == Ok::<ConnectionStep, McpError>(ConnectionStep::Reconnect)
                            && final(self).connection_info(name@) == Some(ConnectionInfo {
                                connection: None, attempts: (info.attempts + 1) as u32, ..info })
                    } else {
                        (r matches Err(McpError::ConnectionFailed(m)) && m@ == "Connection to server "@ + name@ + " lost"@)
                            && final(self).connection_info(name@) == old(self).connection_info(name@)
                    }
                },
                _ => final(self).connection_info(name@) == old(self).connection_info(name@) && match old(self).config(name@) {
                    Some(_) => r == Ok::<ConnectionStep, McpError>(ConnectionStep::Create),
                    None => r matches Err(McpError::ServerNotFound(m)) && m@ == "Server not found: "@ + name@,
                },
            },
            forall|n: Seq<char>| n != name@ ==> final(self).connection_info(n) == old(self).connection_info(n),
            forall|n: Seq<char>| final(self).config(n) == old(self).config(n) && final(self).hook(n) == old(self).hook(n),
    {
        let (has_conn, auto, attempts, max) = match self.active_connections.get(name) {
            Some(info) => (info.connection.is_some(), info.auto_reconnect, info.attempts, info.max_reconnect_attempts),
            None => (false, false, 0, 0),
        };
        if has_conn {
            if connected {
                return Ok(ConnectionStep::Reuse);
            } else if auto && attempts < max {
                let _ = self.active_connections.insert(owned(name), ConnectionInfo {
                    connection: None,
                    attempts: attempts + 1,
                    auto_reconnect: auto,
                    max_reconnect_attempts: max,
                });
                return Ok(ConnectionStep::Reconnect);
            } else {
                return Err(McpError::ConnectionFailed(concat3("Connection to server ", name, " lost")));
            }
        }
        if self.servers.contains_key(name) {
            Ok(ConnectionStep::Create)
        } else {
            Err(McpError::ServerNotFound(concat2("Server not found: ", name)))
        }
    }

    /// Records a connection made to the server `name`: a re-established one
    /// keeps its count of attempts; a first one counts one attempt under the
    /// server's reconnection settings.
    pub fn record_connection(&mut self, name: &str, connection: C)
        requires
            old(self).config(name@) is Some,
        ensures
            match old(self).connection_info(name@) {
                Some(info) if info.connection is None && info.attempts > 1 => final(self).connection_info(name@) == Some(ConnectionInfo {
                    connection: Some(connection), ..info }),
                _ => final(self).connection_info(name@) == Some(ConnectionInfo {
                    connection: Some(connection),
                    attempts: 1,
                    auto_reconnect: old(self).config(name@)->0.auto_reconnect,
                    max_reconnect_attempts: old(self).config(name@)->0.max_reconnect_attempts,
                }),
            },
            forall|n: Seq<char>| n != name@ ==> final(self).connection_info(n) == old(self).connection_info(n),
            forall|n: Seq<char>| final(self).config(n) == old(self).config(n) && final(self).hook(n) == old(self).hook(n),
    {
        let (auto, max) = match self.servers.get(name) {
            Some(c) => (c.auto_reconnect, c.max_reconnect_attempts),
            None => (true, 3),
        };
        let prior = match self.active_connections.get(name) {
            Some(info) => if info.connection.is_none() && info.attempts > 1 {
                Some((info.attempts, info.auto_reconnect, info.max_reconnect_attempts))
            } else {
                None
            },
            None => None,
        };
        let info = match prior {
            Some((attempts, a, m)) => ConnectionInfo { connection: Some(connection), attempts, auto_reconnect: a, max_reconnect_attempts: m },
            None => ConnectionInfo { connection: Some(connection), attempts: 1, auto_reconnect: auto, max_reconnect_attempts: max },
        };
        let _ = self.active_connections.insert(owned(name), info);
    }

    /// How the registered server with configuration `config` is launched: a
    /// process gets exactly the configured variables and `MCP_SERVER=1`;
    /// server-sent events need a URL.
    pub fn launch_plan(config: &ServerConfig) -> (r: McpResult<LaunchPlan>)
        ensures
            match config.transport {
                Transport::Stdio => r matches Ok(LaunchPlan::Stdio { command, args, env, read_timeout })
                    && command@ == config.command@ && args@ == config.args@
                    && pairs_view(env@) == pairs_view(config.env.entries()).push(("MCP_SERVER"@, "1"@))
                    && read_timeout == config.read_timeout,
                Transport::Sse => match config.url {
                    Some(u) => r matches Ok(LaunchPlan::Sse { url, read_timeout }) && url@ == u@ && read_timeout == config.read_timeout,
                    None => r matches Err(McpError::Config(m)) && m@ == "URL required for SSE transport"@,
                },
            },
    {
        match config.transport {
            Transport::Stdio => {
                let mut env: Vec<(String, String)> = Vec::new();
                let n = config.env.len();
                let mut i: usize = 0;
                while i < n
                    invariant
                        i <= n,
                        n == config.env.entries().len(),
                        pairs_view(env@) == pairs_view(config.env.entries().subrange(0, i as int)),
                    decreases n - i,
                {
                    let (k, v) = config.env.entry_at(i);
                    let ghost before = env@;
                    env.push((k.clone(), v.clone()));
                    assert(config.env.entries().subrange(0, i + 1) =~= config.env.entries().subrange(0, i as int).push(config.env.entries()[i as int]));
                    assert(pairs_view(env@) =~= pairs_view(before).push((k@, v@)));
                    assert(pairs_view(env@) =~= pairs_view(config.env.entries().subrange(0, i + 1)));
                    i = i + 1;
                }
                assert(config.env.entries().subrange(0, n as int) =~= config.env.entries());
                let ghost before = env@;
                env.push((owned("MCP_SERVER"), owned("1")));
                assert(pairs_view(env@) =~= pairs_view(before).push(("MCP_SERVER"@, "1"@)));
                Ok(LaunchPlan::Stdio {
                    command: config.command.clone(),
                    args: clone_strings(&config.args),
                    env,
                    read_timeout: config.read_timeout,
                })
            },
            Transport::Sse => match &config.url {
                Some(u) => Ok(LaunchPlan::Sse { url: u.clone(), read_timeout: config.read_timeout }),
                None => Err(McpError::Config(owned("URL required for SSE transport"))),
            },
        }
    }

    /// The message handed to a start hook: an empty normal-priority request.
    pub fn init_message() -> (r: Message)
        ensures
            r.message_type == MessageType::Request,
            r.priority == Priority::Normal,
            r.payload@.len() == 0,
            r.correlation_id is None,
            r.error is None,
    {
        Message::new(MessageType::Request, Priority::Normal, Vec::new(), None, None)
    }

    /// The started server `name`.
    pub fn active_server(&self, name: &str) -> (r: Option<&S>)
        ensures
            match self.server(name@) {
                Some(s) => r == Some(&s),
                None => r is None,
            },
    {
        self.active_servers.get(name)
    }

    /// Records the started server `name`.
    pub fn record_server(&mut self, name: &str, server: S)
        ensures
            final(self).server(name@) == Some(server),
            forall|n: Seq<char>| n != name@ ==> final(self).server(n) == old(self).server(n),
            forall|n: Seq<char>| final(self).config(n) == old(self).config(n) && final(self).connection_info(n) == old(self).connection_info(n),
    {
        let _ = self.active_servers.insert(owned(name), server);
    }

    /// Forgets the started server `name`, giving it back to be shut down.
    pub fn stop_server(&mut self, name: &str) -> (r: Option<S>)
        ensures
            r == old(self).server(name@),
            final(self).server(name@) is None,
            forall|n: Seq<char>| n != name@ ==> final(self).server(n) == old(self).server(n),
            forall|n: Seq<char>| final(self).config(n) == old(self).config(n) && final(self).connection_info(n) == old(self).connection_info(n),
    {
        self.active_servers.remove(name)
    }

    /// Forgets the connection to the server `name`, giving it back to be closed.
    pub fn close_connection(&mut self, name: &str) -> (r: Option<C>)
        ensures
            r == match old(self).connection_info(name@) { Some(i) => i.connection, None => None },
            final(self).connection_info(name@) is None,
            forall|n: Seq<char>| n != name@ ==> final(self).connection_info(n) == old(self).connection_info(n),
            forall|n: Seq<char>| final(self).config(n) == old(self).config(n) && final(self).server(n) == old(self).server(n),
    {
        match self.active_connections.remove(name) {
            Some(info) => info.connection,
            None => None,
        }
    }

    /// Forgets every started server, giving them back to be shut down.
    pub fn stop_all_servers(&mut self) -> (r: KeyedList<S>)
        ensures
            forall|n: Seq<char>| r.spec_get(n) == old(self).server(n) && final(self).server(n) is None,
            forall|n: Seq<char>| final(self).config(n) == old(self).config(n) && final(self).connection_info(n) == old(self).connection_info(n),
    {
        let mut s: KeyedList<S> = KeyedList::new();
        std::mem::swap(&mut s, &mut self.active_servers);
        s
    }

    /// Forgets every connection, giving them back to be closed.
    pub fn close_all_connections(&mut self) -> (r: KeyedList<ConnectionInfo<C>>)
        ensures
            forall|n: Seq<char>| r.spec_get(n) == old(self).connection_info(n) && final(self).connection_info(n) is None,
            forall|n: Seq<char>| final(self).config(n) == old(self).config(n) && final(self).server(n) == old(self).server(n),
    {
        let mut c: KeyedList<ConnectionInfo<C>> = KeyedList::new();
        std::mem::swap(&mut c, &mut self.active_connections);
        c
    }
}

} // verus!
