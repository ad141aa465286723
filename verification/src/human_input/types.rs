//! Requests for human input and the answers to them.

use vstd::prelude::*;
use crate::json::JsonValue;
use crate::keyed::KeyedList;
use crate::mcp::types::{is_uuid_text, new_uuid_string};
use crate::text::owned;

verus! {

/// The name of the signal that carries human input.
pub const HUMAN_INPUT_SIGNAL_NAME: &'static str = "__human_input__";

/// A request for input from a person.
#[derive(Debug)]
pub struct HumanInputRequest {
    /// The request's identifier.
    pub request_id: String,
    /// What the person is asked.
    pub prompt: String,
    /// More about what is asked.
    pub description: Option<String>,
    /// The workflow that asks.
    pub workflow_id: Option<String>,
    /// How long to wait for an answer, in seconds.
    pub timeout_seconds: Option<u64>,
    /// Further properties.
    pub metadata: Option<KeyedList<JsonValue>>,
}

impl HumanInputRequest {
    /// A request under a fresh identifier, with nothing but the prompt.
    pub fn new(prompt: &str) -> (r: HumanInputRequest)
        ensures
            is_uuid_text(r.request_id@),
            r.prompt@ == prompt@,
            r.description is None && r.workflow_id is None && r.timeout_seconds is None && r.metadata is None,
    {
        HumanInputRequest {
            request_id: new_uuid_string(),
            prompt: owned(prompt),
            description: None,
            workflow_id: None,
            timeout_seconds: None,
            metadata: None,
        }
    }

    /// The request with the given description.
    pub fn with_description(self, description: &str) -> (r: HumanInputRequest)
        ensures
            r.description matches Some(d) && d@ == description@,
            r.request_id == self.request_id && r.prompt == self.prompt && r.workflow_id == self.workflow_id,
            r.timeout_seconds == self.timeout_seconds && r.metadata == self.metadata,
    {
        let mut s = self;
        s.description = Some(owned(description));
        s
    }

    /// The request on behalf of the given workflow.
    pub fn with_workflow_id(self, workflow_id: &str) -> (r: HumanInputRequest)
        ensures
            r.workflow_id matches Some(w) && w@ == workflow_id@,
            r.request_id == self.request_id && r.prompt == self.prompt && r.description == self.description,
            r.timeout_seconds == self.timeout_seconds && r.metadata == self.metadata,
    {
        let mut s = self;
        s.workflow_id = Some(owned(workflow_id));
        s
    }

    /// The request waiting `seconds` for an answer.
    pub fn with_timeout(self, seconds: u64) -> (r: HumanInputRequest)
        ensures
            r.timeout_seconds == Some(seconds),
            r.request_id == self.request_id && r.prompt == self.prompt && r.description == self.description,
            r.workflow_id == self.workflow_id && r.metadata == self.metadata,
    {
        let mut s = self;
        s.timeout_seconds = Some(seconds);
        s
    }

    /// The request with the given properties.
    pub fn with_metadata(self, metadata: KeyedList<JsonValue>) -> (r: HumanInputRequest)
        ensures
            r.metadata == Some(metadata),
            r.request_id == self.request_id && r.prompt == self.prompt && r.description == self.description,
            r.workflow_id == self.workflow_id && r.timeout_seconds == self.timeout_seconds,
    {
        let mut s = self;
        s.metadata = Some(metadata);
        s
    }

    /// How long to wait for an answer, in seconds.
    pub fn timeout(&self) -> (r: Option<u64>)
        ensures
            r == self.timeout_seconds,
    {
        self.timeout_seconds
    }
}

/// A person's answer to a request.
#[derive(Debug)]
pub struct HumanInputResponse {
    /// The request answered.
    pub request_id: String,
    /// The answer.
    pub response: String,
    /// Further properties.
    pub metadata: Option<KeyedList<JsonValue>>,
}

impl HumanInputResponse {
    /// An answer without properties.
    pub fn new(request_id: &str, response: &str) -> (r: HumanInputResponse)
        ensures
            r.request_id@ == request_id@ && r.response@ == response@ && r.metadata is None,
    {
        HumanInputResponse { request_id: owned(request_id), response: owned(response), metadata: None }
    }

    /// The answer with the given properties.
    pub fn with_metadata(self, metadata: KeyedList<JsonValue>) -> (r: HumanInputResponse)
        ensures
            r.request_id == self.request_id && r.response == self.response && r.metadata == Some(metadata),
    {
        let mut s = self;
        s.metadata = Some(metadata);
        s
    }
}

} // verus!
