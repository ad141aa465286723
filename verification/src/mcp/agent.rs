//! The agent: its connections to servers by name, the messages it sends
//! them, the tasks it runs, and the statistics it reports.

use vstd::prelude::*;
use crate::json::{json_model, JsonModel, JsonValue};
use crate::keyed::KeyedList;
use crate::mcp::types::{is_uuid_text, new_uuid_string, Message};
use crate::text::{decimal, owned, strings_view, u64_to_string};
use crate::utils::error::{McpError, McpResult};

verus! {

/// How an agent behaves.
#[derive(Debug, Clone, Copy, PartialEq, Eq)]
pub struct AgentConfig {
    /// How long a connection may take to open, in seconds.
    pub connection_timeout_secs: u64,
    /// How long a request may take, in seconds.
    pub request_timeout_secs: u64,
    /// Whether lost connections are re-established.
    pub enable_auto_reconnect: bool,
    /// How often connections are checked, in seconds.
    pub health_check_interval_secs: u64,
}

/// The default configuration: everything zero or off.
pub open spec fn default_agent_config() -> AgentConfig {
    AgentConfig { connection_timeout_secs: 0, request_timeout_secs: 0, enable_auto_reconnect: false, health_check_interval_secs: 0 }
}

impl Default for AgentConfig {
    /// Everything zero or off.
    fn default() -> (r: Self)
        ensures
            r == default_agent_config(),
    {
        AgentConfig { connection_timeout_secs: 0, request_timeout_secs: 0, enable_auto_reconnect: false, health_check_interval_secs: 0 }
    }
}

/// What an agent has done.
#[derive(Debug, Clone, Copy, PartialEq, Eq)]
pub struct AgentMetrics {
    /// Open connections.
    pub connections_count: usize,
    /// Messages sent.
    pub messages_sent: u64,
    /// Messages received.
    pub messages_received: u64,
    /// Operations that failed.
    pub operation_failures: u64,
    /// Connections attempted.
    pub connection_attempts: u64,
    /// Connections made.
    pub connection_successes: u64,
    /// Connections that failed.
    pub connection_failures: u64,
}

/// What the agent counts as it works.
#[derive(Debug)]
struct AgentStats {
    messages_sent: u64,
    messages_received: u64,
    operation_failures: u64,
    connection_attempts: u64,
    connection_successes: u64,
    connection_failures: u64,
    /// Messages sent, by server.
    server_operations: KeyedList<u64>,
}

/// An agent connected to servers by name.
#[derive(Debug)]
pub struct Agent {
    /// The address of each connected server, by name, in the order of connection.
    connections: KeyedList<String>,
    config: AgentConfig,
    stats: AgentStats,
}

/// Every count zero.
pub open spec fn zero_metrics() -> AgentMetrics {
    AgentMetrics {
        connections_count: 0,
        messages_sent: 0,
        messages_received: 0,
        operation_failures: 0,
        connection_attempts: 0,
        connection_successes: 0,
        connection_failures: 0,
    }
}

/// The answer of a task run: `{"execution_time_ms": ms, "request_id": id,
/// "result": "dummy-value", "status": "success"}`.
pub open spec fn task_reply(request_id: Seq<char>, execution_time_ms: u64) -> JsonModel {
    JsonModel::Object(seq![
        ("execution_time_ms"@, JsonModel::Number(decimal(execution_time_ms as nat))),
        ("request_id"@, JsonModel::String(request_id)),
        ("result"@, JsonModel::String("dummy-value"@)),
        ("status"@, JsonModel::String("success"@)),
    ])
}

/// `rand::random::<u64>()`: a number drawn by the thread's random generator.
/// Nothing is promised of its value.
#[verifier::external_body]
fn random_u64() -> (r: u64) {
    rand::random::<u64>()
}

/// The answer of a task run with the request identifier `request_id` that
/// took `execution_time_ms` milliseconds.
pub fn task_result(request_id: String, execution_time_ms: u64) -> (r: JsonValue)
    ensures
        json_model(r) == task_reply(request_id@, execution_time_ms),
{
    let ghost id = request_id@;
    let mut members: Vec<(String, JsonValue)> = Vec::new();
    members.push((owned("execution_time_ms"), JsonValue::Number(u64_to_string(execution_time_ms))));
    members.push((owned("request_id"), JsonValue::String(request_id)));
    members.push((owned("result"), JsonValue::String(owned("dummy-value"))));
    members.push((owned("status"), JsonValue::String(owned("success"))));
    let r = JsonValue::Object(members);
    proof {
        reveal_with_fuel(json_model, 2);
        assert(json_model(r)->Object_0 =~= task_reply(id, execution_time_ms)->Object_0);
    }
    r
}

impl Agent {
    /// The address of the server connected under `server_id`.
    pub closed spec fn connection(&self, server_id: Seq<char>) -> Option<Seq<char>> {
        match self.connections.spec_get(server_id) {
            Some(a) => Some(a@),
            None => None,
        }
    }

    /// The names of the connected servers, in the order of connection.
    pub closed spec fn connection_names(&self) -> Seq<Seq<char>> {
        self.connections.names()
    }

    /// The messages sent to the server `server_id`, if any were.
    pub closed spec fn operations(&self, server_id: Seq<char>) -> Option<u64> {
        self.stats.server_operations.spec_get(server_id)
    }

    /// The agent's statistics.
    pub closed spec fn metrics(&self) -> AgentMetrics {
        AgentMetrics {
            connections_count: self.connections.entries().len() as usize,
            messages_sent: self.stats.messages_sent,
            messages_received: self.stats.messages_received,
            operation_failures: self.stats.operation_failures,
            connection_attempts: self.stats.connection_attempts,
            connection_successes: self.stats.connection_successes,
            connection_failures: self.stats.connection_failures,
        }
    }

    /// No server has been sent more messages than were sent in all.
    #[verifier::type_invariant]
    closed spec fn inv(&self) -> bool {
        forall|k: Seq<char>| #[trigger] self.stats.server_operations.spec_get(k) matches Some(n) ==> n <= self.stats.messages_sent
    }

    /// The configuration the agent runs with.
    pub closed spec fn configuration(&self) -> AgentConfig {
        self.config
    }

    /// An agent without connections, every count zero, with the default
    /// configuration: a configuration given here is not read.
    pub fn new(_config: Option<JsonValue>) -> (r: Agent)
        ensures
            r.metrics() == zero_metrics(),
            r.connection_names().len() == 0,
            forall|k: Seq<char>| r.connection(k) is None && r.operations(k) is None,
            r.configuration() == default_agent_config(),
    {
        Agent {
            connections: KeyedList::new(),
            config: AgentConfig::default(),
            stats: AgentStats {
                messages_sent: 0,
                messages_received: 0,
                operation_failures: 0,
                connection_attempts: 0,
                connection_successes: 0,
                connection_failures: 0,
                server_operations: KeyedList::new(),
            },
        }
    }
    /// Records an attempt to connect to the server `server_id` at
    /// `server_address`, whose outcome is `connected`: on success the server
    /// is connected under that name (in place of an earlier connection under
    /// it), on failure the error is given back. Either way the attempt counts.
    pub fn connect_to_test_server(&mut self, server_id: &str, server_address: &str, connected: McpResult<()>) -> (r:
        McpResult<()>)
        requires
            old(self).metrics().connection_attempts < u64::MAX,
            connected is Ok ==> old(self).metrics().connection_successes < u64::MAX,
            connected is Err ==> old(self).metrics().connection_failures < u64::MAX,
        ensures
            r == connected,
            final(self).configuration() == old(self).configuration(),
            forall|k: Seq<char>| final(self).operations(k) == old(self).operations(k),
            final(self).metrics().connection_attempts == old(self).metrics().connection_attempts + 1,
            final(self).metrics().messages_sent == old(self).metrics().messages_sent,
            final(self).metrics().messages_received == old(self).metrics().messages_received,
            final(self).metrics().operation_failures == old(self).metrics().operation_failures,
            match connected {
                Ok(_) => final(self).connection(server_id@) == Some(server_address@)
                    && (forall|k: Seq<char>| k != server_id@ ==> final(self).connection(k) == old(self).connection(k))
                    && final(self).metrics().connection_successes == old(self).metrics().connection_successes + 1
                    && final(self).metrics().connection_failures == old(self).metrics().connection_failures
                    && (old(self).connection(server_id@) is Some ==> final(self).connection_names() == old(self).connection_names())
                    && (old(self).connection(server_id@) is None ==> final(self).connection_names() == old(self).connection_names().push(server_id@)),
                Err(_) => (forall|k: Seq<char>| final(self).connection(k) == old(self).connection(k))
                    && final(self).connection_names() == old(self).connection_names()
                    && final(self).metrics().connection_successes == old(self).metrics().connection_successes
                    && final(self).metrics().connection_failures == old(self).metrics().connection_failures + 1,
            },
    {
        proof { use_type_invariant(&*self); }
        self.stats.connection_attempts = self.stats.connection_attempts + 1;
        match &connected {
            Ok(_) => {
                let mut connections = KeyedList::new();
                std::mem::swap(&mut connections, &mut self.connections);
                let _ = connections.insert(owned(server_id), owned(server_address));
                self.connections = connections;
                self.stats.connection_successes = self.stats.connection_successes + 1;
            },
            Err(_) => {
                self.stats.connection_failures = self.stats.connection_failures + 1;
            },
        }
        connected
    }

    /// The number of connected servers.
    pub fn connection_count(&self) -> (r: usize)
        ensures
            r == self.connection_names().len(),
            r == self.metrics().connections_count,
    {
        self.connections.len()
    }

    /// The names of the connected servers, in the order of connection.
    pub fn list_connections(&self) -> (r: Vec<String>)
        ensures
            strings_view(r@) == self.connection_names(),
    {
        let r = self.connections.key_list();
        assert(strings_view(r@) =~= r@.map_values(|s: String| s@));
        r
    }

    /// Sends `message` to the server `server_id`: refused with `NotConnected`,
    /// and counted as a failed operation, where no server is connected under
    /// that name; otherwise counted as a message sent to that server.
    pub fn send_message(&mut self, server_id: &str, message: Message) -> (r: McpResult<()>)
        requires
            old(self).connection(server_id@) is None ==> old(self).metrics().operation_failures < u64::MAX,
            old(self).connection(server_id@) is Some ==> old(self).metrics().messages_sent < u64::MAX,
        ensures
            final(self).configuration() == old(self).configuration(),
            forall|k: Seq<char>| final(self).connection(k) == old(self).connection(k),
            final(self).connection_names() == old(self).connection_names(),
            final(self).metrics().connection_attempts == old(self).metrics().connection_attempts,
            final(self).metrics().connection_successes == old(self).metrics().connection_successes,
            final(self).metrics().connection_failures == old(self).metrics().connection_failures,
            final(self).metrics().messages_received == old(self).metrics().messages_received,
            forall|k: Seq<char>| k != server_id@ ==> final(self).operations(k) == old(self).operations(k),
            old(self).connection(server_id@) is None ==> r == Err::<(), McpError>(McpError::NotConnected)
                && final(self).metrics().operation_failures == old(self).metrics().operation_failures + 1
                && final(self).metrics().messages_sent == old(self).metrics().messages_sent
                && final(self).operations(server_id@) == old(self).operations(server_id@),
            old(self).connection(server_id@) is Some ==> r is Ok
                && final(self).metrics().operation_failures == old(self).metrics().operation_failures
                && final(self).metrics().messages_sent == old(self).metrics().messages_sent + 1
                && final(self).operations(server_id@) == Some((match old(self).operations(server_id@) {
                    Some(n) => n + 1,
                    None => 1int,
                }) as u64),
    {
        proof { use_type_invariant(&*self); }
        if !self.connections.contains_key(server_id) {
            self.stats.operation_failures = self.stats.operation_failures + 1;
            return Err(McpError::NotConnected);
        }
        self.stats.messages_sent = self.stats.messages_sent + 1;
        let sent: u64 = match self.stats.server_operations.get(server_id) {
            Some(n) => *n,
            None => 0,
        };
        let mut operations = KeyedList::new();
        std::mem::swap(&mut operations, &mut self.stats.server_operations);
        let _ = operations.insert(owned(server_id), sent + 1);
        self.stats.server_operations = operations;
        Ok(())
    }

    /// Simulates running the task `task_name` with `args`: draws a running time
    /// under 100 milliseconds and a fresh request identifier, and gives back
    /// the answer together with the time, which the caller waits out.
    pub fn execute_task(&self, task_name: &str, args: &JsonValue) -> (r: McpResult<(JsonValue, u64)>)
        ensures
            r matches Ok((v, ms)) && ms < 100 && exists|id: Seq<char>| is_uuid_text(id) && json_model(v) == task_reply(id, ms),
    {
        let request_id = new_uuid_string();
        let ghost id = request_id@;
        let execution_time: u64 = random_u64() % 100;
        let v = task_result(request_id, execution_time);
        assert(is_uuid_text(id));
        Ok((v, execution_time))
    }

    /// Ends the connection to the server `server_id`, if there is one.
    pub fn disconnect(&mut self, server_id: &str) -> (r: McpResult<()>)
        ensures
            r is Ok,
            final(self).connection(server_id@) is None,
            forall|k: Seq<char>| k != server_id@ ==> final(self).connection(k) == old(self).connection(k),
            final(self).configuration() == old(self).configuration(),
            forall|k: Seq<char>| final(self).operations(k) == old(self).operations(k),
            final(self).metrics().messages_sent == old(self).metrics().messages_sent,
            final(self).metrics().messages_received == old(self).metrics().messages_received,
            final(self).metrics().operation_failures == old(self).metrics().operation_failures,
            final(self).metrics().connection_attempts == old(self).metrics().connection_attempts,
            final(self).metrics().connection_successes == old(self).metrics().connection_successes,
            final(self).metrics().connection_failures == old(self).metrics().connection_failures,
    {
        proof { use_type_invariant(&*self); }
        let mut connections = KeyedList::new();
        std::mem::swap(&mut connections, &mut self.connections);
        let _ = connections.remove(server_id);
        self.connections = connections;
        Ok(())
    }

    /// The agent's statistics; no server has been sent more messages than
    /// were sent in all.
    pub fn get_stats(&self) -> (r: AgentMetrics)
        ensures
            r == self.metrics(),
            forall|k: Seq<char>| #[trigger] self.operations(k) matches Some(n) ==> n <= r.messages_sent,
    {
        proof { use_type_invariant(self); }
        AgentMetrics {
            connections_count: self.connections.len(),
            messages_sent: self.stats.messages_sent,
            messages_received: self.stats.messages_received,
            operation_failures: self.stats.operation_failures,
            connection_attempts: self.stats.connection_attempts,
            connection_successes: self.stats.connection_successes,
            connection_failures: self.stats.connection_failures,
        }
    }
}

} // verus!