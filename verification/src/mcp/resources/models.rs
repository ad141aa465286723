//! The data of the resources system: resources, their contents, and the
//! parameters and results of the resource methods.

use vstd::prelude::*;
use crate::json::JsonValue;
use crate::keyed::KeyedList;
use crate::mcp::resources::utils::{b64_decode_std, b64_encode, b64_encode_std};
use crate::text::owned;

verus! {

/// A resource that a server offers.
#[derive(Debug)]
pub struct Resource {
    /// The resource's URI.
    pub uri: String,
    /// A human-readable name.
    pub name: String,
    /// What the resource is.
    pub description: Option<String>,
    /// The MIME type of its content.
    pub mime_type: Option<String>,
    /// Its size in bytes.
    pub size: Option<u64>,
    /// Further properties, by name.
    pub metadata: KeyedList<JsonValue>,
}

impl Resource {
    /// A resource with nothing but a URI and a name.
    pub fn new(uri: &str, name: &str) -> (r: Resource)
        ensures
            r.uri@ == uri@,
            r.name@ == name@,
            r.description is None && r.mime_type is None && r.size is None,
            r.metadata.entries().len() == 0,
    {
        Resource {
            uri: owned(uri),
            name: owned(name),
            description: None,
            mime_type: None,
            size: None,
            metadata: KeyedList::new(),
        }
    }

    /// The resource with the given description.
    pub fn with_description(self, description: &str) -> (r: Resource)
        ensures
            r.description matches Some(d) && d@ == description@,
            r.uri == self.uri && r.name == self.name && r.mime_type == self.mime_type,
            r.size == self.size && r.metadata == self.metadata,
    {
        let mut s = self;
        s.description = Some(owned(description));
        s
    }

    /// The resource with the given MIME type.
    pub fn with_mime_type(self, mime_type: &str) -> (r: Resource)
        ensures
            r.mime_type matches Some(m) && m@ == mime_type@,
            r.uri == self.uri && r.name == self.name && r.description == self.description,
            r.size == self.size && r.metadata == self.metadata,
    {
        let mut s = self;
        s.mime_type = Some(owned(mime_type));
        s
    }

    /// The resource with the given size.
    pub fn with_size(self, size: u64) -> (r: Resource)
        ensures
            r.size == Some(size),
            r.uri == self.uri && r.name == self.name && r.description == self.description,
            r.mime_type == self.mime_type && r.metadata == self.metadata,
    {
        let mut s = self;
        s.size = Some(size);
        s
    }

    /// The resource with `value` stored under `key` in its metadata.
    pub fn with_metadata(self, key: &str, value: JsonValue) -> (r: Resource)
        ensures
            r.metadata.spec_get(key@) == Some(value),
            forall|k: Seq<char>| k != key@ ==> r.metadata.spec_get(k) == self.metadata.spec_get(k),
            r.uri == self.uri && r.name == self.name && r.description == self.description,
            r.mime_type == self.mime_type && r.size == self.size,
    {
        let mut s = self;
        s.metadata.insert(owned(key), value);
        s
    }
}

/// The content of a resource, as text or as base64-encoded bytes.
#[derive(Debug)]
pub enum ResourceContents {
    /// Textual content.
    Text(TextContent),
    /// Binary content.
    Binary(BinaryContent),
}

/// Textual content of a resource.
#[derive(Debug)]
pub struct TextContent {
    /// The resource's URI.
    pub uri: String,
    /// The MIME type of the text.
    pub mime_type: Option<String>,
    /// The text.
    pub text: String,
}

impl TextContent {
    /// Text content without a MIME type.
    pub fn new(uri: &str, text: &str) -> (r: TextContent)
        ensures
            r.uri@ == uri@,
            r.mime_type is None,
            r.text@ == text@,
    {
        TextContent { uri: owned(uri), mime_type: None, text: owned(text) }
    }

    /// The content with the given MIME type.
    pub fn with_mime_type(self, mime_type: &str) -> (r: TextContent)
        ensures
            r.mime_type matches Some(m) && m@ == mime_type@,
            r.uri == self.uri && r.text == self.text,
    {
        let mut s = self;
        s.mime_type = Some(owned(mime_type));
        s
    }
}

/// Binary content of a resource, in padded standard base64.
#[derive(Debug)]
pub struct BinaryContent {
    /// The resource's URI.
    pub uri: String,
    /// The MIME type of the bytes.
    pub mime_type: Option<String>,
    /// The bytes in base64.
    pub blob: String,
}

impl BinaryContent {
    /// The bytes `data`, encoded, without a MIME type.
    pub fn new(uri: &str, data: Vec<u8>) -> (r: BinaryContent)
        ensures
            r.uri@ == uri@,
            r.mime_type is None,
            r.blob@ == b64_encode(data@),
    {
        BinaryContent { uri: owned(uri), mime_type: None, blob: b64_encode_std(data.as_slice()) }
    }

    /// The content with the given MIME type.
    pub fn with_mime_type(self, mime_type: &str) -> (r: BinaryContent)
        ensures
            r.mime_type matches Some(m) && m@ == mime_type@,
            r.uri == self.uri && r.blob == self.blob,
    {
        let mut s = self;
        s.mime_type = Some(owned(mime_type));
        s
    }

    /// The bytes the content holds; an error names what is wrong with the
    /// base64 text.
    pub fn decode(&self) -> (r: Result<Vec<u8>, String>)
        ensures
            r matches Ok(v) ==> b64_encode(v@) == self.blob@,
            r is Err ==> forall|v: Seq<u8>| b64_encode(v) != self.blob@,
    {
        b64_decode_std(self.blob.as_str())
    }
}

/// The answer to `resources/read`.
#[derive(Debug)]
pub struct ResourceReadResponse {
    /// The contents read.
    pub contents: Vec<ResourceContents>,
}

/// The answer to `resources/list`.
#[derive(Debug)]
pub struct ResourceListResponse {
    /// The resources on this page.
    pub resources: Vec<Resource>,
    /// Where the next page starts, if there is one.
    pub next_cursor: Option<String>,
}

/// The parameters of `resources/list`.
#[derive(Debug)]
pub struct ResourceListParams {
    /// Where the page starts.
    pub cursor: Option<String>,
}

/// The parameters of `resources/read`.
#[derive(Debug)]
pub struct ResourceReadParams {
    /// The resource's URI.
    pub uri: String,
}

/// The parameters of `resources/subscribe`.
#[derive(Debug)]
pub struct ResourceSubscribeParams {
    /// The resource's URI.
    pub uri: String,
}

/// The parameters of `resources/unsubscribe`.
#[derive(Debug)]
pub struct ResourceUnsubscribeParams {
    /// The resource's URI.
    pub uri: String,
}

/// The parameters of `notifications/resources/updated`.
#[derive(Debug)]
pub struct ResourceUpdatedParams {
    /// The resource's URI.
    pub uri: String,
}

} // verus!
