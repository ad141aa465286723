//! The messages of a conversation with a language model.

use vstd::prelude::*;
use crate::json::JsonValue;
use crate::keyed::KeyedList;
use crate::text::owned;

verus! {

/// Who speaks a message.
#[derive(Debug, Clone, Copy, PartialEq, Eq)]
pub enum MessageRole {
    /// The instructions of the system.
    System,
    /// The user.
    User,
    /// The model.
    Assistant,
    /// A function's result.
    Function,
    /// A tool's result.
    Tool,
}

/// The name of a role, in lower case.
pub open spec fn role_name(r: MessageRole) -> Seq<char> {
    match r {
        MessageRole::System => "system"@,
        MessageRole::User => "user"@,
        MessageRole::Assistant => "assistant"@,
        MessageRole::Function => "function"@,
        MessageRole::Tool => "tool"@,
    }
}

/// The roles that speak in a conversation of the chat API.
pub open spec fn chat_api_role(name: Seq<char>) -> bool {
    name == "system"@ || name == "user"@ || name == "assistant"@ || name == "tool"@
}

/// The name a role has in the program: its variant's identifier.
pub open spec fn variant_ident(r: MessageRole) -> Seq<char> {
    match r {
        MessageRole::System => "System"@,
        MessageRole::User => "User"@,
        MessageRole::Assistant => "Assistant"@,
        MessageRole::Function => "Function"@,
        MessageRole::Tool => "Tool"@,
    }
}

/// A character in lower case: an ASCII capital becomes its small letter.
pub open spec fn ascii_lower_char(c: char) -> char {
    if 'A' <= c && c <= 'Z' { ((c as u32) + 32) as char } else { c }
}

/// Text in lower case, character by character.
pub open spec fn ascii_lower(s: Seq<char>) -> Seq<char> {
    s.map_values(|c: char| ascii_lower_char(c))
}

/// Laws of role names. Each is its variant's identifier in lower case (the
/// spelling under which roles are serialized); every role that the chat API
/// knows is sent under a name the API knows, and no two roles share a
/// name, so the API can tell every speaker apart.
pub proof fn lemma_role_names(r: MessageRole, q: MessageRole)
    ensures
        role_name(r) == ascii_lower(variant_ident(r)),
        r != MessageRole::Function ==> chat_api_role(role_name(r)),
        role_name(r) == role_name(q) ==> r == q,
{
    reveal_strlit("system");
    reveal_strlit("user");
    reveal_strlit("assistant");
    reveal_strlit("function");
    reveal_strlit("tool");
    reveal_strlit("System");
    reveal_strlit("User");
    reveal_strlit("Assistant");
    reveal_strlit("Function");
    reveal_strlit("Tool");
    assert(ascii_lower("System"@) =~= "system"@);
    assert(ascii_lower("User"@) =~= "user"@);
    assert(ascii_lower("Assistant"@) =~= "assistant"@);
    assert(ascii_lower("Function"@) =~= "function"@);
    assert(ascii_lower("Tool"@) =~= "tool"@);
    if role_name(r) == role_name(q) {
        assert(role_name(r).len() == role_name(q).len());
        assert(role_name(r)[0] == role_name(q)[0]);
    }
}

impl MessageRole {
    /// The role's name.
    pub fn to_string(&self) -> (r: String)
        ensures
            r@ == role_name(*self),
    {
        match self {
            MessageRole::System => owned("system"),
            MessageRole::User => owned("user"),
            MessageRole::Assistant => owned("assistant"),
            MessageRole::Function => owned("function"),
            MessageRole::Tool => owned("tool"),
        }
    }
}

/// A message of a conversation.
#[derive(Debug)]
pub struct Message {
    /// Who speaks it.
    pub role: MessageRole,
    /// What is said.
    pub content: String,
    /// Further properties.
    pub metadata: Option<KeyedList<JsonValue>>,
}

impl Message {
    /// A system message.
    pub fn system(content: &str) -> (r: Message)
        ensures
            r.role == MessageRole::System && r.content@ == content@ && r.metadata is None,
    {
        Message { role: MessageRole::System, content: owned(content), metadata: None }
    }

    /// A user message.
    pub fn user(content: &str) -> (r: Message)
        ensures
            r.role == MessageRole::User && r.content@ == content@ && r.metadata is None,
    {
        Message { role: MessageRole::User, content: owned(content), metadata: None }
    }

    /// An assistant message.
    pub fn assistant(content: &str) -> (r: Message)
        ensures
            r.role == MessageRole::Assistant && r.content@ == content@ && r.metadata is None,
    {
        Message { role: MessageRole::Assistant, content: owned(content), metadata: None }
    }

    /// The message with the given properties.
    pub fn with_metadata(self, metadata: KeyedList<JsonValue>) -> (r: Message)
        ensures
            r.role == self.role && r.content == self.content && r.metadata == Some(metadata),
    {
        let mut s = self;
        s.metadata = Some(metadata);
        s
    }
}

/// What a language model answered.
#[derive(Debug)]
pub struct Completion {
    /// The text it generated.
    pub content: String,
    /// The model that generated it.
    pub model: Option<String>,
    /// The tokens of the prompt.
    pub prompt_tokens: Option<u32>,
    /// The tokens generated.
    pub completion_tokens: Option<u32>,
    /// The tokens of prompt and completion together.
    pub total_tokens: Option<u32>,
    /// Further data of the answer.
    pub metadata: Option<KeyedList<JsonValue>>,
}

} // verus!
