//! The error type used across the protocol, prompt, resource and tool layers.

use vstd::prelude::*;
use crate::text::{concat2, concat4, decimal, decimal_int, i64_to_string, owned, u64_to_string};

verus! {

/// Errors raised by the agent's protocol layers.
#[derive(Debug, PartialEq, Eq)]
pub enum McpError {
    /// The message could not be interpreted.
    InvalidMessage(String),
    /// An input/output operation failed.
    Io(String),
    /// Bytes were not valid UTF-8.
    Utf8(String),
    /// A connection could not be established.
    ConnectionFailed(String),
    /// There is no connection to the peer.
    NotConnected,
    /// The operation timed out.
    Timeout,
    /// The feature is not implemented.
    NotImplemented,
    /// An error carried on the wire, with its numeric code.
    Custom { code: u32, message: String },
    /// The operation is not valid in the current state.
    InvalidState(String),
    /// A protocol rule was broken.
    Protocol(String),
    /// A value could not be serialized.
    Serialization(String),
    /// A value could not be deserialized.
    Deserialization(String),
    /// The configuration is invalid.
    Config(String),
    /// No server is registered under the name.
    ServerNotFound(String),
    /// A task failed to execute.
    Execution(String),
    /// The requested item does not exist.
    NotFound(String),
    /// Authentication failed.
    AuthenticationError(String),
    /// A value failed validation.
    ValidationError(String),
    /// Request parameters are invalid.
    InvalidParams(String),
    /// Serialization failed.
    SerializationError(String),
    /// Deserialization failed.
    DeserializationError(String),
    /// A file-system operation failed.
    IoError(String),
    /// The peer answered with a JSON-RPC error.
    RpcError(i32, String),
    /// The peer's response is malformed.
    InvalidResponse(String),
}

/// Result type of the protocol layers.
pub type McpResult<T> = Result<T, McpError>;

/// The human-readable text of an error.
pub open spec fn error_text(e: McpError) -> Seq<char> {
    match e {
        McpError::InvalidMessage(m) => "Invalid message: "@ + m@,
        McpError::Io(m) => "IO error: "@ + m@,
        McpError::Utf8(m) => "UTF-8 error: "@ + m@,
        McpError::ConnectionFailed(m) => "Connection failed: "@ + m@,
        McpError::NotConnected => "Not connected"@,
        McpError::Timeout => "Operation timed out"@,
        McpError::NotImplemented => "Feature not implemented"@,
        McpError::Custom { code, message } => "Error "@ + decimal(code as nat) + ": "@ + message@,
        McpError::InvalidState(m) => "Invalid state: "@ + m@,
        McpError::Protocol(m) => "Protocol error: "@ + m@,
        McpError::Serialization(m) => "Serialization error: "@ + m@,
        McpError::Deserialization(m) => "Deserialization error: "@ + m@,
        McpError::Config(m) => "Configuration error: "@ + m@,
        McpError::ServerNotFound(m) => "Server not found: "@ + m@,
        McpError::Execution(m) => "Execution error: "@ + m@,
        McpError::NotFound(m) => "Not found: "@ + m@,
        McpError::AuthenticationError(m) => "Authentication error: "@ + m@,
        McpError::ValidationError(m) => "Validation error: "@ + m@,
        McpError::InvalidParams(m) => "Invalid parameters: "@ + m@,
        McpError::SerializationError(m) => "Serialization error: "@ + m@,
        McpError::DeserializationError(m) => "Deserialization error: "@ + m@,
        McpError::IoError(m) => "IO error: "@ + m@,
        McpError::RpcError(code, m) => "RPC error "@ + decimal_int(code as int) + ": "@ + m@,
        McpError::InvalidResponse(m) => "Invalid response: "@ + m@,
    }
}

impl McpError {
    /// The human-readable text of the error.
    pub fn to_text(&self) -> (r: String)
        ensures
            r@ == error_text(*self),
    {
        match self {
            McpError::InvalidMessage(m) => concat2("Invalid message: ", m.as_str()),
            McpError::Io(m) => concat2("IO error: ", m.as_str()),
            McpError::Utf8(m) => concat2("UTF-8 error: ", m.as_str()),
            McpError::ConnectionFailed(m) => concat2("Connection failed: ", m.as_str()),
            McpError::NotConnected => owned("Not connected"),
            McpError::Timeout => owned("Operation timed out"),
            McpError::NotImplemented => owned("Feature not implemented"),
            McpError::Custom { code, message } => {
                let c = u64_to_string(*code as u64);
                concat4("Error ", c.as_str(), ": ", message.as_str())
            },
            McpError::InvalidState(m) => concat2("Invalid state: ", m.as_str()),
            McpError::Protocol(m) => concat2("Protocol error: ", m.as_str()),
            McpError::Serialization(m) => concat2("Serialization error: ", m.as_str()),
            McpError::Deserialization(m) => concat2("Deserialization error: ", m.as_str()),
            McpError::Config(m) => concat2("Configuration error: ", m.as_str()),
            McpError::ServerNotFound(m) => concat2("Server not found: ", m.as_str()),
            McpError::Execution(m) => concat2("Execution error: ", m.as_str()),
            McpError::NotFound(m) => concat2("Not found: ", m.as_str()),
            McpError::AuthenticationError(m) => concat2("Authentication error: ", m.as_str()),
            McpError::ValidationError(m) => concat2("Validation error: ", m.as_str()),
            McpError::InvalidParams(m) => concat2("Invalid parameters: ", m.as_str()),
            McpError::SerializationError(m) => concat2("Serialization error: ", m.as_str()),
            McpError::DeserializationError(m) => concat2("Deserialization error: ", m.as_str()),
            McpError::IoError(m) => concat2("IO error: ", m.as_str()),
            McpError::RpcError(code, m) => {
                let c = i64_to_string(*code as i64);
                concat4("RPC error ", c.as_str(), ": ", m.as_str())
            },
            McpError::InvalidResponse(m) => concat2("Invalid response: ", m.as_str()),
        }
    }
}

impl Clone for McpError {
    fn clone(&self) -> (r: Self)
        ensures
            r == *self,
    {
        match self {
            McpError::InvalidMessage(m) => McpError::InvalidMessage(m.clone()),
            McpError::Io(m) => McpError::Io(m.clone()),
            McpError::Utf8(m) => McpError::Utf8(m.clone()),
            McpError::ConnectionFailed(m) => McpError::ConnectionFailed(m.clone()),
            McpError::NotConnected => McpError::NotConnected,
            McpError::Timeout => McpError::Timeout,
            McpError::NotImplemented => McpError::NotImplemented,
            McpError::Custom { code, message } => McpError::Custom { code: *code, message: message.clone() },
            McpError::InvalidState(m) => McpError::InvalidState(m.clone()),
            McpError::Protocol(m) => McpError::Protocol(m.clone()),
            McpError::Serialization(m) => McpError::Serialization(m.clone()),
            McpError::Deserialization(m) => McpError::Deserialization(m.clone()),
            McpError::Config(m) => McpError::Config(m.clone()),
            McpError::ServerNotFound(m) => McpError::ServerNotFound(m.clone()),
            McpError::Execution(m) => McpError::Execution(m.clone()),
            McpError::NotFound(m) => McpError::NotFound(m.clone()),
            McpError::AuthenticationError(m) => McpError::AuthenticationError(m.clone()),
            McpError::ValidationError(m) => McpError::ValidationError(m.clone()),
            McpError::InvalidParams(m) => McpError::InvalidParams(m.clone()),
            McpError::SerializationError(m) => McpError::SerializationError(m.clone()),
            McpError::DeserializationError(m) => McpError::DeserializationError(m.clone()),
            McpError::IoError(m) => McpError::IoError(m.clone()),
            McpError::RpcError(c, m) => McpError::RpcError(*c, m.clone()),
            McpError::InvalidResponse(m) => McpError::InvalidResponse(m.clone()),
        }
    }
}

} // verus!
