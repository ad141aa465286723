//! The lifecycle of a session: initialization, shutdown and exit, with the
//! capabilities a server announces and the requests a client sends.

use vstd::prelude::*;
use crate::json::{json_get, json_model, json_str, JsonValue};
use crate::keyed::KeyedList;
use crate::mcp::types::{jsonrpc_version, new_uuid_string, JsonRpcNotification, JsonRpcRequest, JsonRpcResponse};
use crate::text::{concat2, owned, strings_view};
use crate::utils::error::{McpError, McpResult};

verus! {

/// The states a session passes through.
#[derive(Debug, Clone, Copy, PartialEq, Eq)]
pub enum SessionState {
    /// Not yet initialized.
    Initial,
    /// Initialization under way.
    Initializing,
    /// Initialized and serving requests.
    Ready,
    /// Shutdown requested; waiting for exit.
    ShuttingDown,
    /// Ended.
    Terminated,
}

/// What a server announces it can do.
#[derive(Debug)]
pub struct ServerCapabilities {
    /// The server's name.
    pub name: String,
    /// The server's version.
    pub version: String,
    /// The protocol version it speaks.
    pub protocol_version: String,
    /// The primitives it offers.
    pub primitives: Vec<String>,
    /// Whether it processes batches.
    pub batch_processing: bool,
    /// Further capabilities.
    pub custom: Option<JsonValue>,
}

/// Two optional JSON values are both absent, or both present and equal as
/// JSON.
pub open spec fn same_custom(a: Option<JsonValue>, b: Option<JsonValue>) -> bool {
    match (a, b) {
        (Some(x), Some(y)) => json_model(x) == json_model(y),
        (None, None) => true,
        _ => false,
    }
}

impl Clone for ServerCapabilities {
    /// A copy: the same texts and flags, the further capabilities cloned.
    fn clone(&self) -> (r: Self)
        ensures
            r.name == self.name && r.version == self.version && r.protocol_version == self.protocol_version,
            r.primitives@ == self.primitives@,
            r.batch_processing == self.batch_processing,
            same_custom(r.custom, self.custom),
    {
        ServerCapabilities {
            name: self.name.clone(),
            version: self.version.clone(),
            protocol_version: self.protocol_version.clone(),
            primitives: crate::mcp::prompts::types::clone_strings(&self.primitives),
            batch_processing: self.batch_processing,
            custom: match &self.custom {
                Some(c) => Some(c.clone()),
                None => None,
            },
        }
    }
}

impl Default for ServerCapabilities {
    /// `MCP Server` at this crate's version, protocol 0.1, offering prompts,
    /// processing batches.
    fn default() -> (r: Self)
        ensures
            r.name@ == "MCP Server"@,
            r.version@ == "0.1.0"@,
            r.protocol_version@ == "0.1"@,
            strings_view(r.primitives@) == seq!["prompt"@],
            r.batch_processing,
            r.custom is None,
    {
        let mut primitives: Vec<String> = Vec::new();
        primitives.push(owned("prompt"));
        assert(strings_view(primitives@) =~= seq!["prompt"@]);
        ServerCapabilities {
            name: owned("MCP Server"),
            version: owned("0.1.0"),
            protocol_version: owned("0.1"),
            primitives,
            batch_processing: true,
            custom: None,
        }
    }
}

/// Who a client is and what it needs.
#[derive(Debug)]
pub struct ClientInfo {
    /// The client's name.
    pub name: String,
    /// The client's version.
    pub version: String,
    /// The protocol version it speaks.
    pub protocol_version: String,
    /// The primitives it needs.
    pub required_primitives: Vec<String>,
    /// Further information.
    pub custom: Option<JsonValue>,
}

/// The parameters of `initialize`.
#[derive(Debug)]
pub struct InitializeParams {
    /// The client.
    pub client: ClientInfo,
    /// The client's capabilities.
    pub capabilities: Option<JsonValue>,
}

/// The answer to `initialize`.
#[derive(Debug)]
pub struct InitializeResult {
    /// The server's capabilities.
    pub capabilities: ServerCapabilities,
    /// Further information on the server.
    pub server_info: Option<JsonValue>,
}

/// The members of an object value, by their names' views and values.
pub open spec fn members_of(v: JsonValue) -> Seq<(Seq<char>, JsonValue)> {
    match v {
        JsonValue::Object(m) => m@.map_values(|p: (String, JsonValue)| (p.0@, p.1)),
        _ => Seq::empty(),
    }
}

/// A JSON array of the strings `v`.
pub open spec fn is_string_array(a: JsonValue, v: Seq<Seq<char>>) -> bool {
    a matches JsonValue::Array(items) && items@.len() == v.len()
        && forall|i: int| 0 <= i < v.len() ==> is_text_value(#[trigger] items@[i], v[i])
}

/// A string value with the text `t`.
pub open spec fn is_text_value(v: JsonValue, t: Seq<char>) -> bool {
    v matches JsonValue::String(s) && s@ == t
}

/// The JSON form of a client's information, its members in name order, the
/// further information only when present.
pub open spec fn client_json(c: ClientInfo, j: JsonValue) -> bool {
    let m = members_of(j);
    let o: int = if c.custom is Some { 1 } else { 0 };
    &&& j is Object
    &&& m.len() == 4 + o
    &&& (c.custom matches Some(x) ==> m[0].0 == "custom"@ && m[0].1 == x)
    &&& m[o].0 == "name"@ && is_text_value(m[o].1, c.name@)
    &&& m[o + 1].0 == "protocol_version"@ && is_text_value(m[o + 1].1, c.protocol_version@)
    &&& m[o + 2].0 == "required_primitives"@ && is_string_array(m[o + 2].1, strings_view(c.required_primitives@))
    &&& m[o + 3].0 == "version"@ && is_text_value(m[o + 3].1, c.version@)
}

/// The JSON form of the parameters of `initialize`, its members in name order.
pub open spec fn initialize_params_json(p: InitializeParams, j: JsonValue) -> bool {
    let m = members_of(j);
    let o: int = if p.capabilities is Some { 1 } else { 0 };
    &&& j is Object
    &&& m.len() == 1 + o
    &&& (p.capabilities matches Some(x) ==> m[0].0 == "capabilities"@ && m[0].1 == x)
    &&& m[o].0 == "client"@ && client_json(p.client, m[o].1)
}

/// An object with the one member `session_id`.
pub open spec fn session_id_json(j: JsonValue, id: Seq<char>) -> bool {
    j is Object && members_of(j).len() == 1 && members_of(j)[0].0 == "session_id"@
        && is_text_value(members_of(j)[0].1, id)
}

/// The session named in parameters: the text of their `session_id` member.
pub open spec fn session_param(params: Option<JsonValue>) -> Option<Seq<char>> {
    match params {
        Some(p) => match json_get(p, "session_id"@) {
            Some(v) => json_str(v),
            None => None,
        },
        None => None,
    }
}

/// A JSON array of copies of the strings.
fn string_array(v: &Vec<String>) -> (r: JsonValue)
    ensures
        is_string_array(r, strings_view(v@)),
{
    let mut items: Vec<JsonValue> = Vec::new();
    let mut i: usize = 0;
    while i < v.len()
        invariant
            i <= v@.len(),
            items@.len() == i,
            forall|j: int| 0 <= j < i ==> is_text_value(#[trigger] items@[j], v@[j]@),
        decreases v.len() - i,
    {
        items.push(JsonValue::String(v[i].clone()));
        i = i + 1;
    }
    JsonValue::Array(items)
}

/// The JSON form of a client's information.
pub fn client_info_to_json(c: ClientInfo) -> (r: JsonValue)
    ensures
        client_json(c, r),
{
    let ghost g = c;
    let mut m: Vec<(String, JsonValue)> = Vec::new();
    let primitives = string_array(&c.required_primitives);
    match c.custom {
        Some(x) => m.push((owned("custom"), x)),
        None => {},
    }
    m.push((owned("name"), JsonValue::String(c.name)));
    m.push((owned("protocol_version"), JsonValue::String(c.protocol_version)));
    m.push((owned("required_primitives"), primitives));
    m.push((owned("version"), JsonValue::String(c.version)));
    let r = JsonValue::Object(m);
    assert(client_json(g, r));
    r
}

/// The JSON form of the parameters of `initialize`.
pub fn initialize_params_to_json(p: InitializeParams) -> (r: JsonValue)
    ensures
        initialize_params_json(p, r),
{
    let ghost g = p;
    let mut m: Vec<(String, JsonValue)> = Vec::new();
    match p.capabilities {
        Some(x) => m.push((owned("capabilities"), x)),
        None => {},
    }
    m.push((owned("client"), client_info_to_json(p.client)));
    let r = JsonValue::Object(m);
    assert(initialize_params_json(g, r));
    r
}

/// `{"session_id": id}`.
fn session_id_object(id: &str) -> (r: JsonValue)
    ensures
        session_id_json(r, id@),
{
    let mut m: Vec<(String, JsonValue)> = Vec::new();
    m.push((owned("session_id"), JsonValue::String(owned(id))));
    JsonValue::Object(m)
}

/// The text of the `session_id` member of parameters.
fn session_id_of(params: &Option<JsonValue>) -> (r: Option<String>)
    ensures
        match session_param(*params) {
            Some(t) => r matches Some(s) && s@ == t,
            None => r is None,
        },
{
    match params {
        Some(p) => match p.get("session_id") {
            Some(v) => match v.as_str() {
                Some(s) => Some(owned(s)),
                None => None,
            },
            None => None,
        },
        None => None,
    }
}

/// The sessions of a server and the capabilities it announces.
#[derive(Debug)]
pub struct LifecycleManager {
    capabilities: ServerCapabilities,
    sessions: KeyedList<SessionState>,
}

impl LifecycleManager {
    /// The state of the session `id`, while it exists.
    pub closed spec fn session(&self, id: Seq<char>) -> Option<SessionState> {
        self.sessions.spec_get(id)
    }

    /// The capabilities announced.
    pub closed spec fn caps(&self) -> ServerCapabilities {
        self.capabilities
    }

    /// A manager announcing `capabilities`, without sessions.
    pub fn new(capabilities: ServerCapabilities) -> (r: LifecycleManager)
        ensures
            r.caps() == capabilities,
            forall|id: Seq<char>| r.session(id) is None,
    {
        LifecycleManager { capabilities, sessions: KeyedList::new() }
    }

    /// The state of the session `session_id`.
    pub fn get_session_state(&self, session_id: &str) -> (r: Option<SessionState>)
        ensures
            r == self.session(session_id@),
    {
        match self.sessions.get(session_id) {
            Some(s) => Some(*s),
            None => None,
        }
    }

    /// Initializes the session `session_id`: it passes through
    /// `Initializing` and ends `Ready`; the answer carries the capabilities.
    pub fn initialize_session(&mut self, session_id: String) -> (r: InitializeResult)
        ensures
            final(self).session(session_id@) == Some(SessionState::Ready),
            forall|id: Seq<char>| id != session_id@ ==> final(self).session(id) == old(self).session(id),
            final(self).caps() == old(self).caps(),
            r.capabilities.name == old(self).caps().name,
            r.capabilities.version == old(self).caps().version,
            r.capabilities.protocol_version == old(self).caps().protocol_version,
            r.capabilities.primitives@ == old(self).caps().primitives@,
            r.capabilities.batch_processing == old(self).caps().batch_processing,
            same_custom(r.capabilities.custom, old(self).caps().custom),
            r.server_info is None,
    {
        let id2 = session_id.clone();
        self.sessions.insert(session_id, SessionState::Initializing);
        let result = InitializeResult { capabilities: self.capabilities.clone(), server_info: None };
        self.sessions.insert(id2, SessionState::Ready);
        result
    }

    /// Handles `shutdown`: the session named by the `session_id` parameter
    /// must be `Ready`, and becomes `ShuttingDown`.
    pub fn shutdown(&mut self, params: Option<JsonValue>) -> (r: McpResult<JsonValue>)
        ensures
            params is None ==> (r matches Err(McpError::InvalidParams(m)) && m@ == "Missing shutdown parameters"@),
            params is Some && session_param(params) is None
                ==> (r matches Err(McpError::InvalidParams(m)) && m@ == "Missing session_id parameter"@),
            match session_param(params) {
                Some(id) => match old(self).session(id) {
                    Some(SessionState::Ready) => (r matches Ok(v) && members_of(v).len() == 1
                        && members_of(v)[0].0 == "success"@ && members_of(v)[0].1 == JsonValue::Bool(true))
                        && final(self).session(id) == Some(SessionState::ShuttingDown)
                        && forall|k: Seq<char>| k != id ==> final(self).session(k) == old(self).session(k),
                    Some(_) => (r matches Err(McpError::InvalidState(m)) && m@ == "Session not in Ready state"@)
                        && forall|k: Seq<char>| final(self).session(k) == old(self).session(k),
                    None => (r matches Err(McpError::NotFound(m)) && m@ == "Session not found: "@ + id)
                        && forall|k: Seq<char>| final(self).session(k) == old(self).session(k),
                },
                None => forall|k: Seq<char>| final(self).session(k) == old(self).session(k),
            },
    {
        if params.is_none() {
            return Err(McpError::InvalidParams(owned("Missing shutdown parameters")));
        }
        let session_id = match session_id_of(&params) {
            Some(s) => s,
            None => return Err(McpError::InvalidParams(owned("Missing session_id parameter"))),
        };
        match self.sessions.get(session_id.as_str()) {
            Some(state) => {
                match state {
                    SessionState::Ready => {},
                    _ => return Err(McpError::InvalidState(owned("Session not in Ready state"))),
                }
                self.sessions.insert(session_id, SessionState::ShuttingDown);
                let mut m: Vec<(String, JsonValue)> = Vec::new();
                m.push((owned("success"), JsonValue::Bool(true)));
                Ok(JsonValue::Object(m))
            },
            None => Err(McpError::NotFound(concat2("Session not found: ", session_id.as_str()))),
        }
    }

    /// Handles the `exit` notification: the session named by the
    /// `session_id` parameter ends and is forgotten, whatever its state. Gives
    /// back the session that ended, if it existed.
    pub fn exit(&mut self, params: Option<JsonValue>) -> (r: McpResult<Option<String>>)
        ensures
            params is None ==> (r matches Err(McpError::InvalidParams(m)) && m@ == "Missing exit parameters"@),
            params is Some && session_param(params) is None
                ==> (r matches Err(McpError::InvalidParams(m)) && m@ == "Missing session_id parameter"@),
            match session_param(params) {
                Some(id) => final(self).session(id) is None
                    && forall|k: Seq<char>| k != id ==> final(self).session(k) == old(self).session(k)
                    && match old(self).session(id) {
                        Some(_) => r matches Ok(Some(s)) && s@ == id,
                        None => r matches Ok(None),
                    },
                None => forall|k: Seq<char>| final(self).session(k) == old(self).session(k),
            },
    {
        if params.is_none() {
            return Err(McpError::InvalidParams(owned("Missing exit parameters")));
        }
        let session_id = match session_id_of(&params) {
            Some(s) => s,
            None => return Err(McpError::InvalidParams(owned("Missing session_id parameter"))),
        };
        if self.sessions.contains_key(session_id.as_str()) {
            self.sessions.insert(session_id.clone(), SessionState::Terminated);
            let _ = self.sessions.remove(session_id.as_str());
            Ok(Some(session_id))
        } else {
            Ok(None)
        }
    }

    /// The `initialize` request of a client, under a fresh identifier.
    pub fn create_initialize_request(client_info: ClientInfo) -> (r: JsonRpcRequest)
        ensures
            r.jsonrpc@ == jsonrpc_version(),
            r.method@ == "initialize"@,
            r.params matches Some(p) && initialize_params_json(InitializeParams { client: client_info, capabilities: None }, p),
            r.id matches JsonValue::String(s) && crate::mcp::types::is_uuid_text(s@),
    {
        let params = InitializeParams { client: client_info, capabilities: None };
        let p = initialize_params_to_json(params);
        JsonRpcRequest::new("initialize", Some(p), JsonValue::String(new_uuid_string()))
    }

    /// The `shutdown` request for a session, under a fresh identifier.
    pub fn create_shutdown_request(session_id: &str) -> (r: JsonRpcRequest)
        ensures
            r.jsonrpc@ == jsonrpc_version(),
            r.method@ == "shutdown"@,
            r.params matches Some(p) && session_id_json(p, session_id@),
            r.id matches JsonValue::String(s) && crate::mcp::types::is_uuid_text(s@),
    {
        JsonRpcRequest::new("shutdown", Some(session_id_object(session_id)), JsonValue::String(new_uuid_string()))
    }

    /// The `exit` notification for a session.
    pub fn create_exit_notification(session_id: &str) -> (r: JsonRpcNotification)
        ensures
            r.jsonrpc@ == jsonrpc_version(),
            r.method@ == "exit"@,
            r.params matches Some(p) && session_id_json(p, session_id@),
    {
        JsonRpcNotification::new("exit", Some(session_id_object(session_id)))
    }

    /// The result carried by the answer to `initialize`: the error it reports,
    /// else its result, else an error that it has none.
    pub fn initialize_response_result(response: &JsonRpcResponse) -> (r: McpResult<&JsonValue>)
        ensures
            match response.error {
                Some(e) => r matches Err(McpError::RpcError(c, m)) && c == e.code && m == e.message,
                None => match response.result {
                    Some(v) => r == Ok::<&JsonValue, McpError>(&v),
                    None => r matches Err(McpError::InvalidResponse(m)) && m@ == "Missing result in initialize response"@,
                },
            },
    {
        match &response.error {
            Some(e) => Err(McpError::RpcError(e.code, e.message.clone())),
            None => match &response.result {
                Some(v) => Ok(v),
                None => Err(McpError::InvalidResponse(owned("Missing result in initialize response"))),
            },
        }
    }
}

} // verus!
