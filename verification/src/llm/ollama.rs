//! The Ollama chat API: the messages sent to it, and the completion read
//! from its answer.

use vstd::prelude::*;
use crate::json::{json_model, JsonModel, JsonValue};
use crate::keyed::KeyedList;
use crate::llm::types::{role_name, Completion, Message};
use crate::text::{concat2, decimal, owned, u64_to_string};

verus! {

/// A message as the chat API takes it.
#[derive(Debug)]
pub struct OllamaMessage {
    /// The speaker's role, by name.
    pub role: String,
    /// What is said.
    pub content: String,
}

/// The parts of the chat API's answer that a completion keeps.
#[derive(Debug)]
pub struct OllamaReply {
    /// The model that answered.
    pub model: String,
    /// The text of its message.
    pub content: String,
    /// The time the whole request took, in nanoseconds.
    pub total_duration: Option<u64>,
    /// The time the prompt took, in nanoseconds.
    pub prompt_eval_duration: Option<u64>,
    /// The time the generation took, in nanoseconds.
    pub eval_duration: Option<u64>,
    /// The tokens of the prompt.
    pub prompt_eval_count: Option<u32>,
    /// The tokens generated.
    pub eval_count: Option<u32>,
}

/// The chat endpoint under the API's base address.
pub fn chat_url(api_url: &str) -> (r: String)
    ensures
        r@ == api_url@ + "/api/chat"@,
{
    concat2(api_url, "/api/chat")
}

/// The endpoint listing the models, under the API's base address; the API
/// is available when it answers there with success.
pub fn tags_url(api_url: &str) -> (r: String)
    ensures
        r@ == api_url@ + "/api/tags"@,
{
    concat2(api_url, "/api/tags")
}

/// The messages of a conversation as the chat API takes them: each role by
/// its name, each text as it is.
pub fn convert_messages(messages: &Vec<Message>) -> (r: Vec<OllamaMessage>)
    ensures
        r@.len() == messages@.len(),
        forall|i: int| 0 <= i < r@.len() ==> (#[trigger] r@[i]).role@ == role_name(messages@[i].role)
            && r@[i].content == messages@[i].content,
{
    let mut out: Vec<OllamaMessage> = Vec::new();
    let mut i: usize = 0;
    while i < messages.len()
        invariant
            i <= messages@.len(),
            out@.len() == i,
            forall|j: int| 0 <= j < i ==> (#[trigger] out@[j]).role@ == role_name(messages@[j].role)
                && out@[j].content == messages@[j].content,
        decreases messages.len() - i,
    {
        out.push(OllamaMessage { role: messages[i].role.to_string(), content: messages[i].content.clone() });
        i = i + 1;
    }
    out
}

/// A count of nanoseconds as JSON: the number, or `null` where the answer
/// gave none.
pub open spec fn duration_json(d: Option<u64>) -> JsonModel {
    match d {
        Some(n) => JsonModel::Number(decimal(n as nat)),
        None => JsonModel::Null,
    }
}

/// The number `d` holds, as JSON, or `null`.
fn duration_value(d: Option<u64>) -> (r: JsonValue)
    ensures
        json_model(r) == duration_json(d),
{
    match d {
        Some(n) => JsonValue::Number(u64_to_string(n)),
        None => JsonValue::Null,
    }
}

/// The tokens of prompt and completion together, where both are known.
pub open spec fn token_total(prompt: Option<u32>, completion: Option<u32>) -> Option<u32> {
    match (prompt, completion) {
        (Some(p), Some(c)) => Some((p + c) as u32),
        _ => None,
    }
}

/// The completion that the chat API's answer gives: its text and model, its
/// token counts and their sum, and the three durations under
/// `total_duration_ns`, `prompt_eval_duration_ns` and `eval_duration_ns`.
pub fn completion_from_reply(reply: OllamaReply) -> (r: Completion)
    requires
        reply.prompt_eval_count matches Some(p) && reply.eval_count matches Some(c) ==> p + c <= u32::MAX,
    ensures
        r.content == reply.content,
        r.model == Some(reply.model),
        r.prompt_tokens == reply.prompt_eval_count,
        r.completion_tokens == reply.eval_count,
        r.total_tokens == token_total(reply.prompt_eval_count, reply.eval_count),
        r.metadata matches Some(m) && m.names() == seq!["total_duration_ns"@, "prompt_eval_duration_ns"@, "eval_duration_ns"@]
            && (m.spec_get("total_duration_ns"@) matches Some(v) && json_model(v) == duration_json(reply.total_duration))
            && (m.spec_get("prompt_eval_duration_ns"@) matches Some(v) && json_model(v) == duration_json(reply.prompt_eval_duration))
            && (m.spec_get("eval_duration_ns"@) matches Some(v) && json_model(v) == duration_json(reply.eval_duration)),
{
    let total_tokens = match (reply.prompt_eval_count, reply.eval_count) {
        (Some(p), Some(c)) => Some(p + c),
        _ => None,
    };
    let mut metadata: KeyedList<JsonValue> = KeyedList::new();
    proof {
        reveal_strlit("total_duration_ns");
        reveal_strlit("prompt_eval_duration_ns");
        reveal_strlit("eval_duration_ns");
        assert("prompt_eval_duration_ns"@[0] != "total_duration_ns"@[0]);
        assert("eval_duration_ns"@[0] != "total_duration_ns"@[0]);
        assert("eval_duration_ns"@[0] != "prompt_eval_duration_ns"@[0]);
    }
    assert(metadata.names() =~= Seq::<Seq<char>>::empty());
    let _ = metadata.insert(owned("total_duration_ns"), duration_value(reply.total_duration));
    assert(metadata.spec_get("prompt_eval_duration_ns"@) is None);
    let _ = metadata.insert(owned("prompt_eval_duration_ns"), duration_value(reply.prompt_eval_duration));
    assert(metadata.spec_get("eval_duration_ns"@) is None);
    let _ = metadata.insert(owned("eval_duration_ns"), duration_value(reply.eval_duration));
    assert(metadata.names() =~= seq!["total_duration_ns"@, "prompt_eval_duration_ns"@, "eval_duration_ns"@]);
    Completion {
        content: reply.content,
        model: Some(reply.model),
        prompt_tokens: reply.prompt_eval_count,
        completion_tokens: reply.eval_count,
        total_tokens,
        metadata: Some(metadata),
    }
}

} // verus!
