//! Tools and the results of calling them.

use vstd::prelude::*;
use crate::json::{json_model, same_members, JsonValue};
use crate::keyed::KeyedList;
use crate::text::owned;

verus! {

/// A function a language model can call.
#[derive(Debug)]
pub struct Tool {
    /// The tool's name.
    pub name: String,
    /// What the tool does.
    pub description: String,
    /// The JSON schema of its arguments.
    pub input_schema: JsonValue,
    /// Further properties, by name.
    pub annotations: Option<KeyedList<JsonValue>>,
}

/// Two tools with the same name, description, schema and annotations.
pub open spec fn same_tool(a: Tool, b: Tool) -> bool {
    &&& a.name == b.name && a.description == b.description
    &&& json_model(a.input_schema) == json_model(b.input_schema)
    &&& match (a.annotations, b.annotations) {
        (Some(x), Some(y)) => same_members(x.entries(), y.entries()),
        (None, None) => true,
        _ => false,
    }
}

impl Clone for Tool {
    /// A copy: the same name and description, the schema and annotations cloned.
    fn clone(&self) -> (r: Self)
        ensures
            same_tool(r, *self),
    {
        Tool {
            name: self.name.clone(),
            description: self.description.clone(),
            input_schema: self.input_schema.clone(),
            annotations: match &self.annotations {
                Some(a) => Some(a.clone()),
                None => None,
            },
        }
    }
}

impl Tool {
    /// A tool without annotations.
    pub fn new(name: &str, description: &str, input_schema: JsonValue) -> (r: Tool)
        ensures
            r.name@ == name@,
            r.description@ == description@,
            r.input_schema == input_schema,
            r.annotations is None,
    {
        Tool { name: owned(name), description: owned(description), input_schema, annotations: None }
    }

    /// The tool with `value` stored under `key` among its annotations.
    pub fn with_annotation(self, key: &str, value: JsonValue) -> (r: Tool)
        ensures
            r.annotations matches Some(a) && a.spec_get(key@) == Some(value)
                && forall|k: Seq<char>| k != key@ ==> a.spec_get(k) == match self.annotations {
                    Some(b) => b.spec_get(k),
                    None => None,
                },
            r.name == self.name && r.description == self.description && r.input_schema == self.input_schema,
    {
        let mut s = self;
        let mut annotations = match s.annotations {
            Some(a) => a,
            None => KeyedList::new(),
        };
        annotations.insert(owned(key), value);
        s.annotations = Some(annotations);
        s
    }
}

/// One piece of what a tool returns.
#[derive(Debug)]
pub enum ToolResultContent {
    /// Text.
    Text { text: String },
    /// An image, base64-encoded.
    Image { data: String, mime_type: String },
    /// Audio, base64-encoded.
    Audio { data: String, mime_type: String },
    /// An embedded resource.
    Resource { resource: ResourceContent },
}

/// A resource embedded in a tool's result.
#[derive(Debug)]
pub struct ResourceContent {
    /// The resource's URI.
    pub uri: String,
    /// Its MIME type.
    pub mime_type: String,
    /// Its text, for textual content.
    pub text: Option<String>,
    /// Its bytes in base64, for binary content.
    pub data: Option<String>,
}

/// What a tool call returns.
#[derive(Debug)]
pub struct ToolResult {
    /// The pieces of the result, in order.
    pub content: Vec<ToolResultContent>,
    /// Whether the call failed.
    pub is_error: bool,
}

/// A text piece with the given text.
pub open spec fn is_text_piece(c: ToolResultContent, t: Seq<char>) -> bool {
    c matches ToolResultContent::Text { text } && text@ == t
}

impl ToolResult {
    /// A successful result of one text.
    pub fn text(text: &str) -> (r: ToolResult)
        ensures
            r.content@.len() == 1,
            is_text_piece(r.content@[0], text@),
            !r.is_error,
    {
        let mut content: Vec<ToolResultContent> = Vec::new();
        content.push(ToolResultContent::Text { text: owned(text) });
        ToolResult { content, is_error: false }
    }

    /// A failed result of one text.
    pub fn error(text: &str) -> (r: ToolResult)
        ensures
            r.content@.len() == 1,
            is_text_piece(r.content@[0], text@),
            r.is_error,
    {
        let mut content: Vec<ToolResultContent> = Vec::new();
        content.push(ToolResultContent::Text { text: owned(text) });
        ToolResult { content, is_error: true }
    }

    /// The result with one more text piece.
    pub fn with_text(self, text: &str) -> (r: ToolResult)
        ensures
            r.content@.len() == self.content@.len() + 1,
            r.content@.drop_last() == self.content@,
            is_text_piece(r.content@.last(), text@),
            r.is_error == self.is_error,
    {
        let mut s = self;
        s.content.push(ToolResultContent::Text { text: owned(text) });
        assert(s.content@.drop_last() =~= self.content@);
        s
    }

    /// The result with one more image piece.
    pub fn with_image(self, data: &str, mime_type: &str) -> (r: ToolResult)
        ensures
            r.content@.len() == self.content@.len() + 1,
            r.content@.drop_last() == self.content@,
            r.content@.last() matches ToolResultContent::Image { data: d, mime_type: m } && d@ == data@ && m@ == mime_type@,
            r.is_error == self.is_error,
    {
        let mut s = self;
        s.content.push(ToolResultContent::Image { data: owned(data), mime_type: owned(mime_type) });
        assert(s.content@.drop_last() =~= self.content@);
        s
    }
}

} // verus!
