//! The answers of the mock MCP server used in tests: a fixed reply for each
//! kind of probe message.

use vstd::prelude::*;
use crate::json::JsonValue;
use crate::text::{chars_of, concat2, find_first, find_from_exec, owned};

verus! {

/// `p` occurs somewhere in `s`.
pub open spec fn mentions(s: Seq<char>, p: Seq<char>) -> bool {
    find_first(s, p) is Some
}

/// A member named `k` whose value is the string `t`.
pub open spec fn text_member(m: (String, JsonValue), k: Seq<char>, t: Seq<char>) -> bool {
    m.0@ == k && (m.1 matches JsonValue::String(s) && s@ == t)
}

/// A member named `k` whose value is the number written `n`.
pub open spec fn number_member(m: (String, JsonValue), k: Seq<char>, n: Seq<char>) -> bool {
    m.0@ == k && (m.1 matches JsonValue::Number(s) && s@ == n)
}

/// The reply to `message`, members in name order, with `now` as the time of
/// replies that carry one.
pub open spec fn is_mock_reply(message: Seq<char>, now: Seq<char>, r: JsonValue) -> bool {
    r matches JsonValue::Object(m) && {
        let ms = m@;
        if mentions(message, "echo"@) {
            ms.len() == 3 && text_member(ms[0], "data"@, message) && text_member(ms[1], "status"@, "ok"@)
                && text_member(ms[2], "type"@, "response"@)
        } else if mentions(message, "ping"@) {
            ms.len() == 3 && text_member(ms[0], "data"@, "pong"@) && text_member(ms[1], "status"@, "ok"@)
                && text_member(ms[2], "type"@, "response"@)
        } else if mentions(message, "json"@) {
            ms.len() == 3 && ms[0].0@ == "data"@ && (ms[0].1 matches JsonValue::Object(d) && d@.len() == 3
                && text_member(d@[0], "name"@, "mock-server"@) && text_member(d@[1], "timestamp"@, now)
                && number_member(d@[2], "value"@, "42"@))
                && text_member(ms[1], "status"@, "ok"@) && text_member(ms[2], "type"@, "response"@)
        } else if mentions(message, "error"@) {
            ms.len() == 4 && number_member(ms[0], "code"@, "400"@)
                && text_member(ms[1], "error"@, "This is a test error message"@)
                && text_member(ms[2], "status"@, "error"@) && text_member(ms[3], "type"@, "response"@)
        } else {
            ms.len() == 4 && text_member(ms[0], "data"@, "Received: "@ + message)
                && text_member(ms[1], "status"@, "ok"@) && text_member(ms[2], "timestamp"@, now)
                && text_member(ms[3], "type"@, "response"@)
        }
    }
}

fn mentions_exec(message: &Vec<char>, p: &str) -> (r: bool)
    ensures
        r == mentions(message@, p@),
{
    let pc = chars_of(p);
    find_from_exec(message, &pc, 0).is_some()
}

fn text_pair(k: &str, t: &str) -> (r: (String, JsonValue))
    ensures
        text_member(r, k@, t@),
{
    (owned(k), JsonValue::String(owned(t)))
}

fn number_pair(k: &str, n: &str) -> (r: (String, JsonValue))
    ensures
        number_member(r, k@, n@),
{
    (owned(k), JsonValue::Number(owned(n)))
}

/// The mock server's reply to `message`; `now` is the current time as the
/// server writes it.
pub fn mock_response(message: &str, now: &str) -> (r: JsonValue)
    ensures
        is_mock_reply(message@, now@, r),
{
    let cs = chars_of(message);
    let mut m: Vec<(String, JsonValue)> = Vec::new();
    if mentions_exec(&cs, "echo") {
        m.push(text_pair("data", message));
        m.push(text_pair("status", "ok"));
        m.push(text_pair("type", "response"));
    } else if mentions_exec(&cs, "ping") {
        m.push(text_pair("data", "pong"));
        m.push(text_pair("status", "ok"));
        m.push(text_pair("type", "response"));
    } else if mentions_exec(&cs, "json") {
        let mut d: Vec<(String, JsonValue)> = Vec::new();
        d.push(text_pair("name", "mock-server"));
        d.push(text_pair("timestamp", now));
        d.push(number_pair("value", "42"));
        m.push((owned("data"), JsonValue::Object(d)));
        m.push(text_pair("status", "ok"));
        m.push(text_pair("type", "response"));
    } else if mentions_exec(&cs, "error") {
        m.push(number_pair("code", "400"));
        m.push(text_pair("error", "This is a test error message"));
        m.push(text_pair("status", "error"));
        m.push(text_pair("type", "response"));
    } else {
        let data = concat2("Received: ", message);
        m.push(text_pair("data", data.as_str()));
        m.push(text_pair("status", "ok"));
        m.push(text_pair("timestamp", now));
        m.push(text_pair("type", "response"));
    }
    JsonValue::Object(m)
}

} // verus!
