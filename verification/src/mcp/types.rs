//! Message identifiers, classifications, envelopes and JSON-RPC 2.0 objects.

use vstd::prelude::*;
use crate::json::JsonValue;
use crate::text::owned;
use crate::utils::error::{McpError, McpResult};

verus! {

// ---------------------------------------------------------------------------
// Identifiers
// ---------------------------------------------------------------------------

/// The lower-case hexadecimal digit of a nibble.
pub open spec fn hex_digit(n: u8) -> char {
    if n < 10 { ((n + 48) as u8) as char } else { ((n + 87) as u8) as char }
}

/// The lower-case hexadecimal text of the bytes, two digits per byte.
pub open spec fn hex_text(b: Seq<u8>) -> Seq<char>
    decreases b.len(),
{
    if b.len() == 0 {
        Seq::empty()
    } else {
        seq![hex_digit(b[0] / 16), hex_digit(b[0] % 16)] + hex_text(b.subrange(1, b.len() as int))
    }
}

/// The hyphenated lower-case text of a 16-byte identifier:
/// 8-4-4-4-12 hexadecimal digits separated by hyphens.
pub open spec fn uuid_text(b: Seq<u8>) -> Seq<char> {
    hex_text(b.subrange(0, 4)) + seq!['-'] + hex_text(b.subrange(4, 6)) + seq!['-']
        + hex_text(b.subrange(6, 8)) + seq!['-'] + hex_text(b.subrange(8, 10)) + seq!['-']
        + hex_text(b.subrange(10, 16))
}

/// What `uuid::Uuid::parse_str` gives for a text: the 16 bytes, or `None` when it rejects it.
pub uninterp spec fn uuid_parse(s: Seq<char>) -> Option<Seq<u8>>;

/// The bytes of a version-4 UUID: the version nibble (the high half of byte
/// 6) is 4, and the variant (the two high bits of byte 8) is that of RFC 4122.
pub open spec fn is_v4(b: Seq<u8>) -> bool {
    b.len() == 16 && b[6] / 16 == 4 && b[8] / 64 == 2
}

/// `uuid::Uuid::new_v4`: sixteen random bytes, with the version and variant
/// bits of a version-4 UUID set. Nothing else is promised of their value.
#[verifier::external_body]
fn random_uuid_bytes() -> (r: [u8; 16])
    ensures
        is_v4(r@),
{
    uuid::Uuid::new_v4().into_bytes()
}

/// `uuid::Uuid::to_string` (its `Display`), which writes the hyphenated lower-case form.
#[verifier::external_body]
fn uuid_to_string(b: &[u8; 16]) -> (r: String)
    ensures
        r@ == uuid_text(b@),
{
    uuid::Uuid::from_bytes(*b).to_string()
}

/// `uuid::Uuid::parse_str`. Its result is named by `uuid_parse`; in particular it
/// accepts the hyphenated lower-case text of any 16 bytes and gives those bytes back.
#[verifier::external_body]
fn uuid_parse_str(s: &str) -> (r: Option<[u8; 16]>)
    ensures
        match r {
            Some(b) => uuid_parse(s@) == Some(b@),
            None => uuid_parse(s@) is None,
        },
        r is Some ==> forall|b: Seq<u8>| b.len() == 16 && s@ == uuid_text(b) ==> r->0@ == b,
        r is None ==> forall|b: Seq<u8>| !(b.len() == 16 && s@ == uuid_text(b)),
{
    match uuid::Uuid::parse_str(s) {
        Ok(u) => Some(u.into_bytes()),
        Err(_) => None,
    }
}

/// A fresh random identifier text (`Uuid::new_v4().to_string()`): the text
/// of the bytes of a version-4 UUID.
pub fn new_uuid_string() -> (r: String)
    ensures
        exists|b: Seq<u8>| #[trigger] is_v4(b) && r@ == uuid_text(b),
{
    let b = random_uuid_bytes();
    let r = uuid_to_string(&b);
    assert(is_v4(b@) && r@ == uuid_text(b@));
    r
}

/// A unique identifier for a message.
#[derive(Debug, Clone, Copy, PartialEq, Eq, Hash)]
pub struct MessageId(pub [u8; 16]);

impl MessageId {
    /// Generates a new random message ID, a version-4 UUID.
    pub fn new() -> (r: MessageId)
        ensures
            is_v4(r.0@),
    {
        MessageId(random_uuid_bytes())
    }

    /// Creates a message ID from raw bytes.
    pub fn from_bytes(bytes: [u8; 16]) -> (r: MessageId)
        ensures
            r.0 == bytes,
    {
        MessageId(bytes)
    }

    /// The raw bytes of the message ID.
    pub fn bytes(&self) -> (r: &[u8; 16])
        ensures
            *r == self.0,
    {
        &self.0
    }

    /// The hyphenated text of the identifier.
    pub fn to_string(&self) -> (r: String)
        ensures
            r@ == uuid_text(self.0@),
    {
        uuid_to_string(&self.0)
    }
}

// ---------------------------------------------------------------------------
// Classifications
// ---------------------------------------------------------------------------

/// The type of message being sent.
#[derive(Debug, Clone, Copy, PartialEq, Eq)]
pub enum MessageType {
    /// A request message
    Request,
    /// A response message
    Response,
    /// An event message
    Event,
    /// A keep-alive message
    KeepAlive,
}

/// The wire code of a message type.
pub open spec fn message_type_code(t: MessageType) -> u8 {
    match t {
        MessageType::Request => 0,
        MessageType::Response => 1,
        MessageType::Event => 2,
        MessageType::KeepAlive => 3,
    }
}

impl MessageType {
    /// The message type with the given wire code, if any.
    pub fn from_u8(value: u8) -> (r: Option<MessageType>)
        ensures
            value < 4 <==> r is Some,
            r matches Some(t) ==> message_type_code(t) == value,
    {
        match value {
            0 => Some(MessageType::Request),
            1 => Some(MessageType::Response),
            2 => Some(MessageType::Event),
            3 => Some(MessageType::KeepAlive),
            _ => None,
        }
    }

    /// The wire code of the message type.
    pub fn as_u8(&self) -> (r: u8)
        ensures
            r == message_type_code(*self),
    {
        match self {
            MessageType::Request => 0,
            MessageType::Response => 1,
            MessageType::Event => 2,
            MessageType::KeepAlive => 3,
        }
    }
}

/// The priority level of a message.
#[derive(Debug, Clone, Copy, PartialEq, Eq)]
pub enum Priority {
    /// Low priority messages
    Low,
    /// Normal priority messages
    Normal,
    /// High priority messages
    High,
}

/// The wire code of a priority.
pub open spec fn priority_code(p: Priority) -> u8 {
    match p {
        Priority::Low => 0,
        Priority::Normal => 1,
        Priority::High => 2,
    }
}

impl Priority {
    /// The priority with the given wire code, if any.
    pub fn from_u8(value: u8) -> (r: Option<Priority>)
        ensures
            value < 3 <==> r is Some,
            r matches Some(p) ==> priority_code(p) == value,
    {
        match value {
            0 => Some(Priority::Low),
            1 => Some(Priority::Normal),
            2 => Some(Priority::High),
            _ => None,
        }
    }

    /// The wire code of the priority.
    pub fn as_u8(&self) -> (r: u8)
        ensures
            r == priority_code(*self),
    {
        match self {
            Priority::Low => 0,
            Priority::Normal => 1,
            Priority::High => 2,
        }
    }
}

/// The round trip of message type codes.
pub proof fn lemma_message_type_code_round_trip(t: MessageType)
    ensures
        message_type_code(t) < 4,
        forall|u: MessageType| message_type_code(u) == message_type_code(t) ==> u == t,
{
}

/// The round trip of priority codes.
pub proof fn lemma_priority_code_round_trip(p: Priority)
    ensures
        priority_code(p) < 3,
        forall|q: Priority| priority_code(q) == priority_code(p) ==> q == p,
{
}

// ---------------------------------------------------------------------------
// Messages and envelopes
// ---------------------------------------------------------------------------

/// The header of a message, with identifiers as text.
#[derive(Debug, Clone)]
pub struct MessageHeader {
    /// The unique identifier of the message
    pub id: String,
    /// The type of message
    pub message_type: MessageType,
    /// The priority level of the message
    pub priority: Priority,
    /// The size of the payload in bytes
    pub payload_size: u32,
    /// The ID of the message this is replying to (if any)
    pub correlation_id: Option<String>,
    /// Any error information (if any)
    pub error: Option<McpError>,
}

/// The envelope containing the header and payload of a message.
#[derive(Debug, Clone)]
pub struct MessageEnvelope {
    /// The header of the message
    pub header: MessageHeader,
    /// The payload of the message
    pub payload: Vec<u8>,
}

/// A complete message with header information and payload.
#[derive(Debug, Clone)]
pub struct Message {
    /// The unique identifier of the message
    pub id: MessageId,
    /// The type of message
    pub message_type: MessageType,
    /// The priority level of the message
    pub priority: Priority,
    /// The payload of the message
    pub payload: Vec<u8>,
    /// The ID of the message this is replying to (if any)
    pub correlation_id: Option<MessageId>,
    /// Any error information (if any)
    pub error: Option<McpError>,
}

/// `env` is the envelope of `m`: identifiers as hyphenated text, other fields copied.
pub open spec fn envelope_of(m: Message, env: MessageEnvelope) -> bool {
    &&& env.header.id@ == uuid_text(m.id.0@)
    &&& env.header.message_type == m.message_type
    &&& env.header.priority == m.priority
    &&& env.header.payload_size == m.payload@.len() as u32
    &&& match m.correlation_id {
        Some(c) => (env.header.correlation_id matches Some(t) && t@ == uuid_text(c.0@)),
        None => env.header.correlation_id is None,
    }
    &&& env.header.error == m.error
    &&& env.payload@ == m.payload@
}

/// `text` is the hyphenated text of some 16 bytes.
pub open spec fn is_uuid_text(text: Seq<char>) -> bool {
    exists|b: Seq<u8>| b.len() == 16 && text == uuid_text(b)
}

/// The bytes `id` are those whose hyphenated text is `text`, whenever `text` is such a text.
pub open spec fn id_read_back(text: Seq<char>, id: MessageId) -> bool {
    forall|b: Seq<u8>| b.len() == 16 && text == uuid_text(b) ==> id.0@ == b
}

/// `back` is the message read from `env`, whose identifiers are hyphenated texts.
pub open spec fn decoded_from(env: MessageEnvelope, back: Message) -> bool {
    &&& id_read_back(env.header.id@, back.id)
    &&& back.message_type == env.header.message_type
    &&& back.priority == env.header.priority
    &&& back.payload == env.payload
    &&& back.error == env.header.error
    &&& match env.header.correlation_id {
        Some(c) => (back.correlation_id matches Some(cid) && id_read_back(c@, cid)),
        None => back.correlation_id is None,
    }
}

/// Two messages carry the same fields (payloads compared by their bytes).
pub open spec fn same_message(a: Message, b: Message) -> bool {
    &&& a.id.0@ == b.id.0@
    &&& a.message_type == b.message_type
    &&& a.priority == b.priority
    &&& a.payload@ == b.payload@
    &&& match (a.correlation_id, b.correlation_id) {
        (Some(x), Some(y)) => x.0@ == y.0@,
        (None, None) => true,
        _ => false,
    }
    &&& a.error == b.error
}

impl Message {
    /// Creates a new message with a fresh random ID.
    pub fn new(
        message_type: MessageType,
        priority: Priority,
        payload: Vec<u8>,
        correlation_id: Option<MessageId>,
        error: Option<McpError>,
    ) -> (r: Message)
        ensures
            r.message_type == message_type,
            r.priority == priority,
            r.payload == payload,
            r.correlation_id == correlation_id,
            r.error == error,
    {
        Message { id: MessageId::new(), message_type, priority, payload, correlation_id, error }
    }

    /// Creates a new request message.
    pub fn request(payload: Vec<u8>, priority: Priority) -> (r: Message)
        ensures
            r.message_type == MessageType::Request,
            r.priority == priority,
            r.payload == payload,
            r.correlation_id is None,
            r.error is None,
    {
        Self::new(MessageType::Request, priority, payload, None, None)
    }

    /// Creates a new response message to the request with the given ID.
    pub fn response(payload: Vec<u8>, request_id: MessageId) -> (r: Message)
        ensures
            r.message_type == MessageType::Response,
            r.priority == Priority::Normal,
            r.payload == payload,
            r.correlation_id == Some(request_id),
            r.error is None,
    {
        Self::new(MessageType::Response, Priority::Normal, payload, Some(request_id), None)
    }

    /// Creates a new event message.
    pub fn event(payload: Vec<u8>) -> (r: Message)
        ensures
            r.message_type == MessageType::Event,
            r.priority == Priority::Normal,
            r.payload == payload,
            r.correlation_id is None,
            r.error is None,
    {
        Self::new(MessageType::Event, Priority::Normal, payload, None, None)
    }

    /// Creates a new keep-alive message.
    pub fn keep_alive() -> (r: Message)
        ensures
            r.message_type == MessageType::KeepAlive,
            r.priority == Priority::Low,
            r.payload@.len() == 0,
            r.correlation_id is None,
            r.error is None,
    {
        Self::new(MessageType::KeepAlive, Priority::Low, Vec::new(), None, None)
    }

    /// Creates a new error response.
    pub fn error(error: McpError, request_id: Option<MessageId>) -> (r: Message)
        ensures
            r.message_type == MessageType::Response,
            r.priority == Priority::High,
            r.payload@.len() == 0,
            r.correlation_id == request_id,
            r.error == Some(error),
    {
        Self::new(MessageType::Response, Priority::High, Vec::new(), request_id, Some(error))
    }

    /// Converts the message into an envelope with textual identifiers.
    pub fn to_envelope(&self) -> (r: McpResult<MessageEnvelope>)
        ensures
            (r matches Ok(env) && envelope_of(*self, env)),
    {
        let correlation_id = match &self.correlation_id {
            Some(c) => Some(c.to_string()),
            None => None,
        };
        let error = match &self.error {
            Some(e) => Some(e.clone()),
            None => None,
        };
        Ok(MessageEnvelope {
            header: MessageHeader {
                id: self.id.to_string(),
                message_type: self.message_type,
                priority: self.priority,
                payload_size: self.payload.len() as u32,
                correlation_id,
                error,
            },
            payload: self.payload.clone(),
        })
    }

    /// Converts an envelope back into a message, parsing its textual identifiers.
    pub fn from_envelope(envelope: MessageEnvelope) -> (r: McpResult<Message>)
        ensures
            match uuid_parse(envelope.header.id@) {
                None => (r matches Err(McpError::InvalidMessage(m)) && m@ == "Invalid UUID format"@),
                Some(idb) => if (envelope.header.correlation_id matches Some(c) && uuid_parse(c@) is None) {
                    (r matches Err(McpError::InvalidMessage(m))
                        && m@ == "Invalid correlation ID UUID format"@)
                } else {
                    (r matches Ok(msg) && {
                        &&& msg.id.0@ == idb
                        &&& msg.message_type == envelope.header.message_type
                        &&& msg.priority == envelope.header.priority
                        &&& msg.payload == envelope.payload
                        &&& msg.error == envelope.header.error
                        &&& match envelope.header.correlation_id {
                            Some(c) => (msg.correlation_id matches Some(cid) && uuid_parse(c@) == Some(cid.0@)),
                            None => msg.correlation_id is None,
                        }
                    })
                },
            },
            (is_uuid_text(envelope.header.id@) && (envelope.header.correlation_id matches Some(c)
                ==> is_uuid_text(c@))) ==> (r matches Ok(msg) && decoded_from(envelope, msg)),
    {
        let id_bytes = match uuid_parse_str(envelope.header.id.as_str()) {
            Some(b) => b,
            None => {
                return Err(McpError::InvalidMessage(owned("Invalid UUID format")));
            },
        };
        let correlation_id = match &envelope.header.correlation_id {
            Some(id_str) => match uuid_parse_str(id_str.as_str()) {
                Some(b) => Some(MessageId(b)),
                None => {
                    return Err(McpError::InvalidMessage(owned("Invalid correlation ID UUID format")));
                },
            },
            None => None,
        };
        Ok(Message {
            id: MessageId(id_bytes),
            message_type: envelope.header.message_type,
            priority: envelope.header.priority,
            payload: envelope.payload,
            correlation_id,
            error: envelope.header.error,
        })
    }
}

/// Converting a message to an envelope and reading the envelope back gives the
/// same message.
pub proof fn lemma_envelope_round_trip(m: Message, env: MessageEnvelope, back: Message)
    requires
        envelope_of(m, env),
        decoded_from(env, back),
    ensures
        same_message(back, m),
{
    assert(m.id.0@.len() == 16);
    assert(env.header.id@ == uuid_text(m.id.0@));
    assert(back.id.0@ == m.id.0@);
    if let Some(c) = m.correlation_id {
        assert(c.0@.len() == 16);
        let t = env.header.correlation_id.unwrap();
        assert(t@ == uuid_text(c.0@));
        let cid = back.correlation_id.unwrap();
        assert(cid.0@ == c.0@);
    }
}

/// The envelope of a message has identifiers that read back.
pub proof fn lemma_envelope_ids_are_uuid_text(m: Message, env: MessageEnvelope)
    requires
        envelope_of(m, env),
    ensures
        is_uuid_text(env.header.id@),
        env.header.correlation_id matches Some(c) ==> is_uuid_text(c@),
{
    assert(m.id.0@.len() == 16);
    if let Some(c) = m.correlation_id {
        assert(c.0@.len() == 16);
    }
}

// ---------------------------------------------------------------------------
// JSON-RPC 2.0 objects
// ---------------------------------------------------------------------------

/// The protocol version every JSON-RPC object carries.
pub open spec fn jsonrpc_version() -> Seq<char> {
    "2.0"@
}

/// JSON-RPC 2.0 request object.
#[derive(Debug, Clone)]
pub struct JsonRpcRequest {
    /// JSON-RPC version, always "2.0"
    pub jsonrpc: String,
    /// Method name to invoke
    pub method: String,
    /// Parameters for the method
    pub params: Option<JsonValue>,
    /// Unique identifier for the request
    pub id: JsonValue,
}

impl JsonRpcRequest {
    /// Creates a new JSON-RPC request.
    pub fn new(method: &str, params: Option<JsonValue>, id: JsonValue) -> (r: JsonRpcRequest)
        ensures
            r.jsonrpc@ == jsonrpc_version(),
            r.method@ == method@,
            r.params == params,
            r.id == id,
    {
        JsonRpcRequest { jsonrpc: owned("2.0"), method: owned(method), params, id }
    }
}

/// JSON-RPC 2.0 response object.
#[derive(Debug, Clone)]
pub struct JsonRpcResponse {
    /// JSON-RPC version, always "2.0"
    pub jsonrpc: String,
    /// Result of the method call, present when there is no error
    pub result: Option<JsonValue>,
    /// Error information, present when there is no result
    pub error: Option<JsonRpcError>,
    /// Identifier of the request this response answers
    pub id: JsonValue,
}

impl JsonRpcResponse {
    /// Creates a successful response.
    pub fn success(result: JsonValue, id: JsonValue) -> (r: JsonRpcResponse)
        ensures
            r.jsonrpc@ == jsonrpc_version(),
            r.result == Some(result),
            r.error is None,
            r.id == id,
    {
        JsonRpcResponse { jsonrpc: owned("2.0"), result: Some(result), error: None, id }
    }

    /// Creates an error response.
    pub fn error(error: JsonRpcError, id: JsonValue) -> (r: JsonRpcResponse)
        ensures
            r.jsonrpc@ == jsonrpc_version(),
            r.result is None,
            r.error == Some(error),
            r.id == id,
    {
        JsonRpcResponse { jsonrpc: owned("2.0"), result: None, error: Some(error), id }
    }
}

/// JSON-RPC 2.0 notification object (a request without an ID).
#[derive(Debug, Clone)]
pub struct JsonRpcNotification {
    /// JSON-RPC version, always "2.0"
    pub jsonrpc: String,
    /// Method name to invoke
    pub method: String,
    /// Parameters for the method
    pub params: Option<JsonValue>,
}

impl JsonRpcNotification {
    /// Creates a new notification.
    pub fn new(method: &str, params: Option<JsonValue>) -> (r: JsonRpcNotification)
        ensures
            r.jsonrpc@ == jsonrpc_version(),
            r.method@ == method@,
            r.params == params,
    {
        JsonRpcNotification { jsonrpc: owned("2.0"), method: owned(method), params }
    }
}

/// A batch of JSON-RPC requests, processed independently.
#[derive(Debug, Clone)]
pub struct JsonRpcBatchRequest(pub Vec<JsonRpcRequest>);

impl JsonRpcBatchRequest {
    /// Creates an empty batch.
    pub fn new() -> (r: JsonRpcBatchRequest)
        ensures
            r.0@.len() == 0,
    {
        JsonRpcBatchRequest(Vec::new())
    }

    /// Creates a batch from requests.
    pub fn from_requests(requests: Vec<JsonRpcRequest>) -> (r: JsonRpcBatchRequest)
        ensures
            r.0 == requests,
    {
        JsonRpcBatchRequest(requests)
    }

    /// Adds a request at the end of the batch.
    pub fn add_request(&mut self, request: JsonRpcRequest)
        ensures
            final(self).0@ == old(self).0@.push(request),
    {
        self.0.push(request);
    }

    /// The number of requests in the batch.
    pub fn len(&self) -> (r: usize)
        ensures
            r == self.0@.len(),
    {
        self.0.len()
    }

    /// Whether the batch is empty.
    pub fn is_empty(&self) -> (r: bool)
        ensures
            r == (self.0@.len() == 0),
    {
        self.0.len() == 0
    }
}

/// A batch of JSON-RPC responses, in the order of the requests.
#[derive(Debug, Clone)]
pub struct JsonRpcBatchResponse(pub Vec<JsonRpcResponse>);

impl JsonRpcBatchResponse {
    /// Creates an empty batch.
    pub fn new() -> (r: JsonRpcBatchResponse)
        ensures
            r.0@.len() == 0,
    {
        JsonRpcBatchResponse(Vec::new())
    }

    /// Creates a batch from responses.
    pub fn from_responses(responses: Vec<JsonRpcResponse>) -> (r: JsonRpcBatchResponse)
        ensures
            r.0 == responses,
    {
        JsonRpcBatchResponse(responses)
    }

    /// Adds a response at the end of the batch.
    pub fn add_response(&mut self, response: JsonRpcResponse)
        ensures
            final(self).0@ == old(self).0@.push(response),
    {
        self.0.push(response);
    }

    /// The number of responses in the batch.
    pub fn len(&self) -> (r: usize)
        ensures
            r == self.0@.len(),
    {
        self.0.len()
    }

    /// Whether the batch is empty.
    pub fn is_empty(&self) -> (r: bool)
        ensures
            r == (self.0@.len() == 0),
    {
        self.0.len() == 0
    }
}

/// JSON-RPC 2.0 error object.
#[derive(Debug, Clone)]
pub struct JsonRpcError {
    /// Error code
    pub code: i32,
    /// Error message
    pub message: String,
    /// Additional error data
    pub data: Option<JsonValue>,
}

impl JsonRpcError {
    /// Creates a new error object.
    pub fn new(code: i32, message: &str, data: Option<JsonValue>) -> (r: JsonRpcError)
        ensures
            r.code == code,
            r.message@ == message@,
            r.data == data,
    {
        JsonRpcError { code, message: owned(message), data }
    }

    /// Parse error (-32700).
    pub fn parse_error(message: &str) -> (r: JsonRpcError)
        ensures
            r.code == -32700,
            r.message@ == message@,
            r.data is None,
    {
        Self::new(-32700, message, None)
    }

    /// Invalid request error (-32600).
    pub fn invalid_request(message: &str) -> (r: JsonRpcError)
        ensures
            r.code == -32600,
            r.message@ == message@,
            r.data is None,
    {
        Self::new(-32600, message, None)
    }

    /// Method not found error (-32601).
    pub fn method_not_found(message: &str) -> (r: JsonRpcError)
        ensures
            r.code == -32601,
            r.message@ == message@,
            r.data is None,
    {
        Self::new(-32601, message, None)
    }

    /// Invalid params error (-32602).
    pub fn invalid_params(message: &str) -> (r: JsonRpcError)
        ensures
            r.code == -32602,
            r.message@ == message@,
            r.data is None,
    {
        Self::new(-32602, message, None)
    }

    /// Internal error (-32603).
    pub fn internal_error(message: &str) -> (r: JsonRpcError)
        ensures
            r.code == -32603,
            r.message@ == message@,
            r.data is None,
    {
        Self::new(-32603, message, None)
    }

    /// Server error, with a code between -32099 and -32000.
    pub fn server_error(code: i32, message: &str, data: Option<JsonValue>) -> (r: JsonRpcError)
        requires
            -32099 <= code <= -32000,
        ensures
            r.code == code,
            r.message@ == message@,
            r.data == data,
    {
        Self::new(code, message, data)
    }
}

} // verus!
