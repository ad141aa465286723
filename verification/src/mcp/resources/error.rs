//! Errors of the resources system and the JSON-RPC errors they answer with.

use vstd::prelude::*;
use crate::json::JsonValue;
use crate::mcp::types::JsonRpcError;
use crate::text::concat2;

verus! {

/// Errors that can occur in the resources system.
#[derive(Debug, PartialEq, Eq)]
pub enum ResourceError {
    /// No resource has the URI.
    ResourceNotFound(String),
    /// The URI is malformed.
    InvalidUri(String),
    /// A template's parameters are invalid.
    InvalidTemplateParameters(String),
    /// A path leaves the directory it must stay in.
    SecurityViolation(String),
    /// The resource is too large to read.
    ResourceTooLarge(String),
    /// An input/output operation failed.
    IoError(String),
    /// The capability is switched off.
    CapabilityNotSupported(String),
    /// A value could not be serialized.
    SerializationError(String),
    /// A value could not be deserialized.
    DeserializationError(String),
}

/// The message of an error: its kind, a colon and its detail.
pub open spec fn resource_error_text(e: ResourceError) -> Seq<char> {
    match e {
        ResourceError::ResourceNotFound(s) => "Resource not found: "@ + s@,
        ResourceError::InvalidUri(s) => "Invalid URI: "@ + s@,
        ResourceError::InvalidTemplateParameters(s) => "Invalid template parameters: "@ + s@,
        ResourceError::SecurityViolation(s) => "Security violation: "@ + s@,
        ResourceError::ResourceTooLarge(s) => "Resource is too large: "@ + s@,
        ResourceError::IoError(s) => "I/O error: "@ + s@,
        ResourceError::CapabilityNotSupported(s) => "Capability not supported: "@ + s@,
        ResourceError::SerializationError(s) => "Serialization error: "@ + s@,
        ResourceError::DeserializationError(s) => "Deserialization error: "@ + s@,
    }
}

/// The JSON-RPC code and message an error is answered with.
pub open spec fn resource_error_rpc(e: ResourceError) -> (i32, Seq<char>) {
    match e {
        ResourceError::ResourceNotFound(_) => (-32002i32, "Resource not found"@),
        ResourceError::InvalidUri(_) => (-32602i32, "Invalid URI"@),
        ResourceError::InvalidTemplateParameters(_) => (-32602i32, "Invalid parameters"@),
        ResourceError::SecurityViolation(_) => (-32001i32, "Security violation"@),
        ResourceError::ResourceTooLarge(_) => (-32001i32, "Resource too large"@),
        ResourceError::IoError(_) => (-32603i32, "I/O error"@),
        ResourceError::CapabilityNotSupported(_) => (-32601i32, "Method not found"@),
        ResourceError::SerializationError(_) => (-32603i32, "Internal error"@),
        ResourceError::DeserializationError(_) => (-32700i32, "Parse error"@),
    }
}

impl ResourceError {
    /// The error's message.
    pub fn to_string(&self) -> (r: String)
        ensures
            r@ == resource_error_text(*self),
    {
        match self {
            ResourceError::ResourceNotFound(s) => concat2("Resource not found: ", s.as_str()),
            ResourceError::InvalidUri(s) => concat2("Invalid URI: ", s.as_str()),
            ResourceError::InvalidTemplateParameters(s) => concat2("Invalid template parameters: ", s.as_str()),
            ResourceError::SecurityViolation(s) => concat2("Security violation: ", s.as_str()),
            ResourceError::ResourceTooLarge(s) => concat2("Resource is too large: ", s.as_str()),
            ResourceError::IoError(s) => concat2("I/O error: ", s.as_str()),
            ResourceError::CapabilityNotSupported(s) => concat2("Capability not supported: ", s.as_str()),
            ResourceError::SerializationError(s) => concat2("Serialization error: ", s.as_str()),
            ResourceError::DeserializationError(s) => concat2("Deserialization error: ", s.as_str()),
        }
    }

    /// The JSON-RPC error this error is answered with: its code and message by
    /// kind, and the error's own message as data.
    pub fn to_rpc_error(&self) -> (r: JsonRpcError)
        ensures
            r.code == resource_error_rpc(*self).0,
            r.message@ == resource_error_rpc(*self).1,
            r.data matches Some(JsonValue::String(d)) && d@ == resource_error_text(*self),
    {
        let data = Some(JsonValue::String(self.to_string()));
        match self {
            ResourceError::ResourceNotFound(_) => JsonRpcError::new(-32002, "Resource not found", data),
            ResourceError::InvalidUri(_) => JsonRpcError::new(-32602, "Invalid URI", data),
            ResourceError::InvalidTemplateParameters(_) => JsonRpcError::new(-32602, "Invalid parameters", data),
            ResourceError::SecurityViolation(_) => JsonRpcError::new(-32001, "Security violation", data),
            ResourceError::ResourceTooLarge(_) => JsonRpcError::new(-32001, "Resource too large", data),
            ResourceError::IoError(_) => JsonRpcError::new(-32603, "I/O error", data),
            ResourceError::CapabilityNotSupported(_) => JsonRpcError::new(-32601, "Method not found", data),
            ResourceError::SerializationError(_) => JsonRpcError::new(-32603, "Internal error", data),
            ResourceError::DeserializationError(_) => JsonRpcError::new(-32700, "Parse error", data),
        }
    }
}

} // verus!
