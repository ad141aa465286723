//! The servers an agent starts and talks to: their settings, the hooks run
//! when one starts, how each is started, and the connections and processes
//! of the running ones.

use vstd::prelude::*;
use crate::config::{McpServerAuthSettings, McpServerSettings};
use crate::keyed::KeyedList;
use crate::mcp::prompts::types::clone_strings;
use crate::text::{concat2, concat3, owned, str_eq, strings_view};
use crate::utils::error::{McpError, McpResult};

verus! {

/// How the agent reaches one server.
#[derive(Debug)]
pub struct ServerSettings {
    /// The transport: `stdio` or `sse`.
    pub transport: String,
    /// The command that starts the server.
    pub command: Option<String>,
    /// Its arguments.
    pub args: Option<Vec<String>>,
    /// The server's URL.
    pub url: Option<String>,
    /// Environment variables for the server.
    pub env: Option<KeyedList<String>>,
    /// How to authenticate.
    pub auth: Option<ServerAuthSettings>,
    /// How long to wait for a read, in seconds.
    pub read_timeout_seconds: Option<u64>,
    /// Whether a lost connection is re-established.
    pub auto_reconnect: bool,
    /// How many times it is re-established at most.
    pub max_reconnect_attempts: u32,
}

/// How the agent authenticates with a server.
#[derive(Debug)]
pub struct ServerAuthSettings {
    /// The kind of authentication.
    pub auth_type: String,
    /// An API key.
    pub api_key: Option<String>,
    /// A token.
    pub token: Option<String>,
}

/// The settings of a server from the agent's configuration: the same fields,
/// the credentials without user name and password, reconnecting
/// automatically up to three times.
pub open spec fn converted(s: McpServerSettings) -> ServerSettings {
    ServerSettings {
        transport: s.transport,
        command: s.command,
        args: s.args,
        url: s.url,
        env: s.env,
        auth: match s.auth {
            Some(a) => Some(ServerAuthSettings { auth_type: a.auth_type, api_key: a.api_key, token: a.token }),
            None => None,
        },
        read_timeout_seconds: s.read_timeout_seconds,
        auto_reconnect: true,
        max_reconnect_attempts: 3,
    }
}

/// The configuration given last under the name `n`.
pub open spec fn last_setting(servers: Seq<(String, McpServerSettings)>, n: Seq<char>) -> Option<McpServerSettings>
    decreases servers.len(),
{
    if servers.len() == 0 {
        None
    } else if servers.last().0@ == n {
        Some(servers.last().1)
    } else {
        last_setting(servers.drop_last(), n)
    }
}

impl ServerSettings {
    /// The settings of a server from the agent's configuration, reconnecting
    /// automatically up to three times.
    pub fn from_settings(settings: McpServerSettings) -> (r: ServerSettings)
        ensures
            r == converted(settings),
    {
        let auth = match settings.auth {
            Some(a) => Some(ServerAuthSettings { auth_type: a.auth_type, api_key: a.api_key, token: a.token }),
            None => None,
        };
        ServerSettings {
            transport: settings.transport,
            command: settings.command,
            args: settings.args,
            url: settings.url,
            env: settings.env,
            auth,
            read_timeout_seconds: settings.read_timeout_seconds,
            auto_reconnect: true,
            max_reconnect_attempts: 3,
        }
    }
}

/// A hook run when a server has started, with the server's name and its
/// connection.
#[derive(Debug)]
pub struct InitHookFn<F>(pub F);

impl<F> InitHookFn<F> {
    /// The hook that runs `f`.
    pub fn new(f: F) -> (r: InitHookFn<F>)
        ensures
            r.0 == f,
    {
        InitHookFn(f)
    }

    /// Runs the hook for the server `server_name` and its connection.
    pub fn call<C>(&self, server_name: &str, connection: &C) -> (r: McpResult<()>)
        where F: Fn(&str, &C) -> McpResult<()>,
        requires
            call_requires(self.0, (server_name, connection)),
        ensures
            call_ensures(self.0, (server_name, connection), r),
    {
        (self.0)(server_name, connection)
    }
}

/// How a server is started.
#[derive(Debug)]
pub enum StartPlan {
    /// Run a command and talk over its standard input and output.
    Stdio {
        /// The connection's address.
        url: String,
        /// The command.
        command: String,
        /// Its arguments.
        args: Vec<String>,
        /// Its environment, in order.
        env: Vec<(String, String)>,
        /// The read time-out in seconds.
        read_timeout_secs: u64,
    },
    /// Connect to server-sent events at a URL.
    Sse {
        /// The URL.
        url: String,
        /// The read time-out in seconds.
        read_timeout_secs: u64,
    },
}

/// The views of a list of (name, value) pairs.
pub open spec fn pairs_view(v: Seq<(String, String)>) -> Seq<(Seq<char>, Seq<char>)> {
    v.map_values(|p: (String, String)| (p.0@, p.1@))
}

/// The environment a started server gets: the configured variables in order,
/// then `MCP_SERVER=1`.
pub open spec fn server_env(env: Option<KeyedList<String>>) -> Seq<(Seq<char>, Seq<char>)> {
    let configured = match env {
        Some(e) => pairs_view(e.entries()),
        None => Seq::empty(),
    };
    configured.push(("MCP_SERVER"@, "1"@))
}

/// The read time-out: the configured one, or 30 seconds.
pub open spec fn read_timeout(s: ServerSettings) -> u64 {
    match s.read_timeout_seconds {
        Some(t) => t,
        None => 30,
    }
}

/// How the server `server_name` is started with `settings`, or why it cannot be.
pub fn plan_start(settings: &ServerSettings, server_name: &str) -> (r: McpResult<StartPlan>)
    ensures
        settings.transport@ == "stdio"@ ==> match (settings.command, settings.args) {
            (None, _) => r matches Err(McpError::Config(m)) && m@ == "Command required for stdio transport"@,
            (Some(_), None) => r matches Err(McpError::Config(m)) && m@ == "Args required for stdio transport"@,
            (Some(c), Some(a)) => r matches Ok(StartPlan::Stdio { url, command, args, env, read_timeout_secs })
                && url@ == "stdio://"@ + server_name@ && command@ == c@ && args@ == a@
                && pairs_view(env@) == server_env(settings.env) && read_timeout_secs == read_timeout(*settings),
        },
        settings.transport@ == "sse"@ ==> match settings.url {
            None => r matches Err(McpError::Config(m)) && m@ == "URL required for SSE transport"@,
            Some(u) => r matches Ok(StartPlan::Sse { url, read_timeout_secs }) && url@ == u@
                && read_timeout_secs == read_timeout(*settings),
        },
        settings.transport@ != "stdio"@ && settings.transport@ != "sse"@
            ==> (r matches Err(McpError::Config(m)) && m@ == "Unsupported transport: "@ + settings.transport@),
{
    proof {
        reveal_strlit("stdio");
        reveal_strlit("sse");
        assert("stdio"@.len() != "sse"@.len());
    }
    let timeout = match settings.read_timeout_seconds {
        Some(t) => t,
        None => 30,
    };
    if str_eq(settings.transport.as_str(), "stdio") {
        let command = match &settings.command {
            Some(c) => c,
            None => return Err(McpError::Config(owned("Command required for stdio transport"))),
        };
        let args = match &settings.args {
            Some(a) => a,
            None => return Err(McpError::Config(owned("Args required for stdio transport"))),
        };
        let mut env: Vec<(String, String)> = Vec::new();
        match &settings.env {
            Some(e) => {
                let n = e.len();
                let mut i: usize = 0;
                while i < n
                    invariant
                        i <= n,
                        n == e.entries().len(),
                        pairs_view(env@) == pairs_view(e.entries().subrange(0, i as int)),
                    decreases n - i,
                {
                    let (k, v) = e.entry_at(i);
                    let ghost before = env@;
                    env.push((k.clone(), v.clone()));
                    assert(e.entries().subrange(0, i + 1) =~= e.entries().subrange(0, i as int).push(e.entries()[i as int]));
                    assert(pairs_view(env@) =~= pairs_view(before).push((k@, v@)));
                    assert(pairs_view(env@) =~= pairs_view(e.entries().subrange(0, i + 1)));
                    i = i + 1;
                }
                assert(e.entries().subrange(0, n as int) =~= e.entries());
            },
            None => {
                assert(pairs_view(env@) =~= Seq::<(Seq<char>, Seq<char>)>::empty());
            },
        }
        let ghost before = env@;
        env.push((owned("MCP_SERVER"), owned("1")));
        assert(pairs_view(env@) =~= pairs_view(before).push(("MCP_SERVER"@, "1"@)));
        Ok(StartPlan::Stdio {
            url: concat2("stdio://", server_name),
            command: command.clone(),
            args: clone_strings(args),
            env,
            read_timeout_secs: timeout,
        })
    } else if str_eq(settings.transport.as_str(), "sse") {
        match &settings.url {
            Some(u) => Ok(StartPlan::Sse { url: u.clone(), read_timeout_secs: timeout }),
            None => Err(McpError::Config(owned("URL required for SSE transport"))),
        }
    } else {
        Err(McpError::Config(concat2("Unsupported transport: ", settings.transport.as_str())))
    }
}

/// The servers an agent knows, their start hooks, and the connections and
/// processes of those running.
#[derive(Debug)]
pub struct ServerManager<H, C, P> {
    server_settings: KeyedList<ServerSettings>,
    running_servers: KeyedList<P>,
    active_connections: KeyedList<C>,
    init_hooks: KeyedList<H>,
}

impl<H, C, P> ServerManager<H, C, P> {
    /// The settings of the server `name`.
    pub closed spec fn settings(&self, name: Seq<char>) -> Option<ServerSettings> {
        self.server_settings.spec_get(name)
    }

    /// The names of the servers, in order of registration.
    pub closed spec fn names(&self) -> Seq<Seq<char>> {
        self.server_settings.names()
    }

    /// The start hook of the server `name`.
    pub closed spec fn hook(&self, name: Seq<char>) -> Option<H> {
        self.init_hooks.spec_get(name)
    }

    /// The connection to the running server `name`.
    pub closed spec fn connection_of(&self, name: Seq<char>) -> Option<C> {
        self.active_connections.spec_get(name)
    }

    /// The process of the running server `name`.
    pub closed spec fn process_of(&self, name: Seq<char>) -> Option<P> {
        self.running_servers.spec_get(name)
    }

    /// A manager that knows no servers.
    pub fn new() -> (r: ServerManager<H, C, P>)
        ensures
            r.names().len() == 0,
            forall|n: Seq<char>| r.settings(n) is None && r.hook(n) is None
                && r.connection_of(n) is None && r.process_of(n) is None,
    {
        ServerManager {
            server_settings: KeyedList::new(),
            running_servers: KeyedList::new(),
            active_connections: KeyedList::new(),
            init_hooks: KeyedList::new(),
        }
    }

    /// Takes over the servers of the agent's configuration, each replacing any
    /// server of its name.
    pub fn load_servers(&mut self, servers: Vec<(String, McpServerSettings)>)
        ensures
            forall|n: Seq<char>| #[trigger] final(self).settings(n) == match last_setting(servers@, n) {
                Some(c) => Some(converted(c)),
                None => old(self).settings(n),
            },
            forall|n: Seq<char>| final(self).hook(n) == old(self).hook(n),
            forall|n: Seq<char>| final(self).connection_of(n) == old(self).connection_of(n),
            forall|n: Seq<char>| final(self).process_of(n) == old(self).process_of(n),
    {
        let ghost all = servers@;
        let mut rest = servers;
        let n = rest.len();
        let mut i: usize = 0;
        assert(all.subrange(0, 0).len() == 0);
        while i < n
            invariant
                i <= n,
                n == all.len(),
                rest@ == all.subrange(i as int, n as int),
                forall|k: Seq<char>| #[trigger] self.settings(k) == match last_setting(all.subrange(0, i as int), k) {
                    Some(c) => Some(converted(c)),
                    None => old(self).settings(k),
                },
                forall|k: Seq<char>| self.hook(k) == old(self).hook(k),
                forall|k: Seq<char>| self.connection_of(k) == old(self).connection_of(k),
                forall|k: Seq<char>| self.process_of(k) == old(self).process_of(k),
            decreases n - i,
        {
            let (name, config) = rest.remove(0);
            assert(name == all[i as int].0 && config == all[i as int].1);
            let ghost prefix = all.subrange(0, i + 1);
            assert(prefix.drop_last() =~= all.subrange(0, i as int));
            assert(prefix.last() == all[i as int]);
            let ghost key = name@;
            let ghost prev = *self;
            let _ = self.server_settings.insert(name, ServerSettings::from_settings(config));
            proof {
                assert forall|k: Seq<char>| #[trigger] self.settings(k) == match last_setting(prefix, k) {
                    Some(c) => Some(converted(c)),
                    None => old(self).settings(k),
                } by {
                    if k != key {
                        assert(self.settings(k) == prev.settings(k));
                        assert(last_setting(prefix, k) == last_setting(all.subrange(0, i as int), k));
                    }
                }
            }
            i = i + 1;
            assert(rest@ =~= all.subrange(i as int, n as int));
        }
        assert(all.subrange(0, n as int) =~= all);
    }

    /// Sets the settings of the server `name`, in place of any it had.
    pub fn set_server_settings(&mut self, name: String, settings: ServerSettings)
        ensures
            final(self).settings(name@) == Some(settings),
            forall|n: Seq<char>| n != name@ ==> final(self).settings(n) == old(self).settings(n),
            forall|n: Seq<char>| final(self).hook(n) == old(self).hook(n),
            forall|n: Seq<char>| final(self).connection_of(n) == old(self).connection_of(n),
            forall|n: Seq<char>| final(self).process_of(n) == old(self).process_of(n),
    {
        let _ = self.server_settings.insert(name, settings);
    }

    /// Registers the server `name`; a name already registered is refused.
    pub fn register_server(&mut self, name: &str, settings: ServerSettings) -> (r: McpResult<()>)
        ensures
            old(self).settings(name@) is Some ==> (r matches Err(McpError::Config(m))
                && m@ == "Server '"@ + name@ + "' already registered"@)
                && forall|n: Seq<char>| final(self).settings(n) == old(self).settings(n),
            old(self).settings(name@) is None ==> r is Ok
                && final(self).settings(name@) == Some(settings)
                && forall|n: Seq<char>| n != name@ ==> final(self).settings(n) == old(self).settings(n),
            old(self).settings(name@) is None ==> final(self).names() == old(self).names().push(name@),
            forall|n: Seq<char>| final(self).hook(n) == old(self).hook(n),
    {
        if self.server_settings.contains_key(name) {
            return Err(McpError::Config(concat3("Server '", name, "' already registered")));
        }
        let _ = self.server_settings.insert(owned(name), settings);
        Ok(())
    }

    /// Registers the hook run when the server `server_name` starts; the
    /// server must be registered.
    pub fn register_init_hook(&mut self, server_name: &str, hook: H) -> (r: McpResult<()>)
        ensures
            old(self).settings(server_name@) is None ==> (r matches Err(McpError::ServerNotFound(m))
                && m@ == "Server '"@ + server_name@ + "' not found"@)
                && forall|n: Seq<char>| final(self).hook(n) == old(self).hook(n),
            old(self).settings(server_name@) is Some ==> r is Ok
                && final(self).hook(server_name@) == Some(hook)
                && forall|n: Seq<char>| n != server_name@ ==> final(self).hook(n) == old(self).hook(n),
            forall|n: Seq<char>| final(self).settings(n) == old(self).settings(n),
    {
        if !self.server_settings.contains_key(server_name) {
            return Err(McpError::ServerNotFound(concat3("Server '", server_name, "' not found")));
        }
        let _ = self.init_hooks.insert(owned(server_name), hook);
        Ok(())
    }

    /// The settings of the server `server_name`.
    pub fn server_settings(&self, server_name: &str) -> (r: McpResult<&ServerSettings>)
        ensures
            match self.settings(server_name@) {
                Some(s) => r == Ok::<&ServerSettings, McpError>(&s),
                None => r matches Err(McpError::ServerNotFound(m)) && m@ == "Server '"@ + server_name@ + "' not found"@,
            },
    {
        match self.server_settings.get(server_name) {
            Some(s) => Ok(s),
            None => Err(McpError::ServerNotFound(concat3("Server '", server_name, "' not found"))),
        }
    }

    /// The start hook of the server `server_name`.
    pub fn init_hook(&self, server_name: &str) -> (r: Option<&H>)
        ensures
            match self.hook(server_name@) {
                Some(h) => r == Some(&h),
                None => r is None,
            },
    {
        self.init_hooks.get(server_name)
    }

    /// The connection to the running server `server_name`.
    pub fn connection(&self, server_name: &str) -> (r: Option<&C>)
        ensures
            match self.connection_of(server_name@) {
                Some(c) => r == Some(&c),
                None => r is None,
            },
    {
        self.active_connections.get(server_name)
    }

    /// Records that the server `server_name` runs, with its connection and,
    /// when the agent started it, its process.
    pub fn record_started(&mut self, server_name: &str, connection: C, process: Option<P>)
        ensures
            final(self).connection_of(server_name@) == Some(connection),
            match process {
                Some(p) => final(self).process_of(server_name@) == Some(p),
                None => final(self).process_of(server_name@) == old(self).process_of(server_name@),
            },
            forall|n: Seq<char>| n != server_name@ ==> final(self).connection_of(n) == old(self).connection_of(n)
                && final(self).process_of(n) == old(self).process_of(n),
            forall|n: Seq<char>| final(self).settings(n) == old(self).settings(n) && final(self).hook(n) == old(self).hook(n),
    {
        match process {
            Some(p) => {
                let _ = self.running_servers.insert(owned(server_name), p);
            },
            None => {},
        }
        let _ = self.active_connections.insert(owned(server_name), connection);
    }

    /// Stops the server `server_name`: its connection and process are
    /// forgotten and given back to be closed and killed.
    pub fn stop_server(&mut self, server_name: &str) -> (r: (Option<C>, Option<P>))
        ensures
            r.0 == old(self).connection_of(server_name@),
            r.1 == old(self).process_of(server_name@),
            final(self).connection_of(server_name@) is None,
            final(self).process_of(server_name@) is None,
            forall|n: Seq<char>| n != server_name@ ==> final(self).connection_of(n) == old(self).connection_of(n)
                && final(self).process_of(n) == old(self).process_of(n),
            forall|n: Seq<char>| final(self).settings(n) == old(self).settings(n) && final(self).hook(n) == old(self).hook(n),
    {
        let c = self.active_connections.remove(server_name);
        let p = self.running_servers.remove(server_name);
        (c, p)
    }

    /// Stops every server: all connections and processes are forgotten and
    /// given back to be closed and killed.
    pub fn stop_all_servers(&mut self) -> (r: (KeyedList<C>, KeyedList<P>))
        ensures
            forall|n: Seq<char>| final(self).connection_of(n) is None && final(self).process_of(n) is None,
            forall|n: Seq<char>| r.0.spec_get(n) == old(self).connection_of(n) && r.1.spec_get(n) == old(self).process_of(n),
            forall|n: Seq<char>| final(self).settings(n) == old(self).settings(n) && final(self).hook(n) == old(self).hook(n),
    {
        let mut c: KeyedList<C> = KeyedList::new();
        let mut p: KeyedList<P> = KeyedList::new();
        std::mem::swap(&mut c, &mut self.active_connections);
        std::mem::swap(&mut p, &mut self.running_servers);
        (c, p)
    }

    /// The names of the registered servers.
    pub fn get_server_names(&self) -> (r: Vec<String>)
        ensures
            strings_view(r@) == self.names(),
    {
        self.server_settings.key_list()
    }
}

} // verus!
