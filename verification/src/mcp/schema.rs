//! Validation of protocol messages against the JSON schemas of JSON-RPC 2.0:
//! messages, requests, responses, notifications, errors and batches.

use vstd::prelude::*;
use crate::json::JsonValue;
use crate::json_text::{json_text, to_json_text};
use crate::text::{concat2, concat3, decimal, join, join_strings, owned, strings_view, u64_to_string};
use crate::utils::error::{McpError, McpResult};

verus! {

/// A JSON schema compiled by jsonschema.
#[verifier::external_type_specification]
#[verifier::external_body]
pub struct ExJsonSchema(jsonschema::JSONSchema);

/// A JSON value of serde_json.
#[verifier::external_type_specification]
#[verifier::external_body]
pub struct ExSerdeValue(serde_json::Value);

/// The schema every message meets.
pub const MESSAGE_SCHEMA: &'static str = r#"{
    "$schema": "http://json-schema.org/draft-07/schema#",
    "title": "MCP Message Schema",
    "type": "object",
    "required": ["jsonrpc"],
    "properties": {
        "jsonrpc": {
            "type": "string",
            "enum": ["2.0"]
        }
    }
}"#;

/// The schema of a request.
pub const REQUEST_SCHEMA: &'static str = r#"{
    "$schema": "http://json-schema.org/draft-07/schema#",
    "title": "JSON-RPC Request Schema",
    "type": "object",
    "required": ["jsonrpc", "method", "id"],
    "properties": {
        "jsonrpc": {
            "type": "string",
            "enum": ["2.0"]
        },
        "method": {
            "type": "string"
        },
        "params": {
            "oneOf": [
                { "type": "object" },
                { "type": "array" },
                { "type": "null" }
            ]
        },
        "id": {
            "oneOf": [
                { "type": "string" },
                { "type": "number" },
                { "type": "null" }
            ]
        }
    }
}"#;

/// The schema of a response: a result or an error, not both.
pub const RESPONSE_SCHEMA: &'static str = r#"{
    "$schema": "http://json-schema.org/draft-07/schema#",
    "title": "JSON-RPC Response Schema",
    "type": "object",
    "required": ["jsonrpc", "id"],
    "oneOf": [
        {
            "required": ["result"],
            "properties": {
                "jsonrpc": {"type": "string", "enum": ["2.0"]},
                "result": {},
                "id": {
                    "oneOf": [
                        {"type": "string"},
                        {"type": "number"},
                        {"type": "null"}
                    ]
                }
            },
            "not": {"required": ["error"]}
        },
        {
            "required": ["error"],
            "properties": {
                "jsonrpc": {"type": "string", "enum": ["2.0"]},
                "error": {
                    "type": "object",
                    "required": ["code", "message"],
                    "properties": {
                        "code": {"type": "integer"},
                        "message": {"type": "string"},
                        "data": {}
                    }
                },
                "id": {
                    "oneOf": [
                        {"type": "string"},
                        {"type": "number"},
                        {"type": "null"}
                    ]
                }
            },
            "not": {"required": ["result"]}
        }
    ]
}"#;

/// The schema of a notification: a request without an identifier.
pub const NOTIFICATION_SCHEMA: &'static str = r#"{
    "$schema": "http://json-schema.org/draft-07/schema#",
    "title": "JSON-RPC Notification Schema",
    "type": "object",
    "required": ["jsonrpc", "method"],
    "properties": {
        "jsonrpc": {
            "type": "string",
            "enum": ["2.0"]
        },
        "method": {
            "type": "string"
        },
        "params": {
            "oneOf": [
                { "type": "object" },
                { "type": "array" },
                { "type": "null" }
            ]
        }
    },
    "not": {"required": ["id"]}
}"#;

/// The schema of an error object.
pub const ERROR_SCHEMA: &'static str = r#"{
    "$schema": "http://json-schema.org/draft-07/schema#",
    "title": "JSON-RPC Error Schema",
    "type": "object",
    "required": ["code", "message"],
    "properties": {
        "code": {"type": "integer"},
        "message": {"type": "string"},
        "data": {}
    }
}"#;

/// The errors that jsonschema reports when it validates the JSON document
/// `instance` (a value's text, as `json_text` writes it), as serde_json
/// reads it (`null` where serde_json cannot read it: a number beyond the
/// range of `f64`), against the Draft 7 schema written in `schema`: each as
/// the error's text and the text of the instance path where it arose, in the
/// order reported, none when the instance is valid. The order is fixed by
/// the texts: jsonschema keeps a node's keyword validators, and the
/// validators of `properties`, `required`, `enum` and `oneOf`, in vectors in
/// the order of the schema's keys (serde_json's sorted map), and walks an
/// instance object in its sorted key order; its hashed maps serve only
/// lookups (the properties of `additionalProperties` past 40 entries) and
/// the annotations of unknown keywords.
pub uninterp spec fn draft7_errors(schema: Seq<char>, instance: Seq<char>) -> Seq<(Seq<char>, Seq<char>)>;

/// Each reported error as one line: its text, ` at `, and its instance path.
pub open spec fn error_lines(errors: Seq<(Seq<char>, Seq<char>)>) -> Seq<Seq<char>> {
    errors.map_values(|e: (Seq<char>, Seq<char>)| e.0 + " at "@ + e.1)
}

/// The texts of a list of pairs of strings.
pub open spec fn pairs_view(v: Seq<(String, String)>) -> Seq<(Seq<char>, Seq<char>)> {
    v.map_values(|p: (String, String)| (p.0@, p.1@))
}

/// A schema compiled by jsonschema, with the text it was compiled from.
#[derive(Debug)]
pub struct CompiledSchema {
    text: String,
    schema: jsonschema::JSONSchema,
}

impl CompiledSchema {
    /// The text the schema was compiled from.
    pub closed spec fn source(&self) -> Seq<char> {
        self.text@
    }
}

/// The five schemas of the protocol, by their texts.
pub open spec fn builtin_schema(text: Seq<char>) -> bool {
    ||| text == MESSAGE_SCHEMA@
    ||| text == REQUEST_SCHEMA@
    ||| text == RESPONSE_SCHEMA@
    ||| text == NOTIFICATION_SCHEMA@
    ||| text == ERROR_SCHEMA@
}

/// Parses `text` with serde_json and compiles it with jsonschema as a
/// Draft 7 schema, keeping the text; the error is the text of what failed.
/// Each of the five schemas of the protocol is well-formed JSON and a valid
/// Draft 7 schema, so both steps succeed on them: compiling depends on the
/// text alone.
#[verifier::external_body]
fn compile_draft7(text: &str) -> (r: Result<CompiledSchema, String>)
    ensures
        r matches Ok(c) ==> c.source() == text@,
        builtin_schema(text@) ==> r is Ok,
{
    let schema: serde_json::Value = serde_json::from_str(text).map_err(|e| e.to_string())?;
    let compiled = jsonschema::JSONSchema::options()
        .with_draft(jsonschema::Draft::Draft7)
        .compile(&schema)
        .map_err(|e| e.to_string())?;
    Ok(CompiledSchema { text: text.to_string(), schema: compiled })
}

/// One of the five schemas of the protocol, compiled: it always compiles.
fn compile_builtin(text: &str) -> (r: CompiledSchema)
    requires
        builtin_schema(text@),
    ensures
        r.source() == text@,
    decreases 0nat,
{
    match compile_draft7(text) {
        Ok(c) => c,
        Err(_) => {
            proof { assert(false); }
            compile_builtin(text)
        },
    }
}

/// The value serde_json reads from the JSON text of an instance
/// (`serde_json::from_str`), or `null` where it cannot read the text.
#[verifier::external_body]
fn to_serde(text: &str) -> (r: serde_json::Value) {
    match serde_json::from_str(text) {
        Ok(v) => v,
        Err(_) => serde_json::Value::Null,
    }
}

/// jsonschema's `JSONSchema::validate` on the value serde_json reads from
/// `instance`: the errors it reports, each as its text (`Display`) and the
/// text of its instance path. Named: they depend on the schema's text and
/// the instance's text alone.
#[verifier::external_body]
fn schema_error_parts(schema: &CompiledSchema, instance: &str) -> (r: Vec<(String, String)>)
    ensures
        pairs_view(r@) == draft7_errors(schema.source(), instance@),
{
    let value = to_serde(instance);
    let parts: Vec<(String, String)> = match schema.schema.validate(&value) {
        Ok(()) => Vec::new(),
        Err(errors) => errors.map(|e| (e.to_string(), e.instance_path.to_string())).collect(),
    };
    parts
}

/// The errors of validating `instance` against `schema`, one line each.
/// The instance goes to jsonschema as its JSON text, which reads back as the
/// instance itself (`lemma_json_text_reads_back`).
fn schema_errors(schema: &CompiledSchema, instance: &JsonValue) -> (r: Vec<String>)
    ensures
        strings_view(r@) == error_lines(draft7_errors(schema.source(), json_text(*instance))),
{
    let text = to_json_text(instance);
    let parts = schema_error_parts(schema, text.as_str());
    let ghost all = pairs_view(parts@);
    let mut out: Vec<String> = Vec::new();
    let mut i: usize = 0;
    while i < parts.len()
        invariant
            i <= parts@.len(),
            all == pairs_view(parts@),
            strings_view(out@) == error_lines(all.subrange(0, i as int)),
        decreases parts.len() - i,
    {
        let ghost before = out@;
        let line = concat3(parts[i].0.as_str(), " at ", parts[i].1.as_str());
        out.push(line);
        assert(all.subrange(0, i + 1) =~= all.subrange(0, i as int).push(all[i as int]));
        assert(strings_view(out@) =~= strings_view(before).push(line@));
        assert(error_lines(all.subrange(0, i + 1)) =~= error_lines(all.subrange(0, i as int)).push(line@));
        i = i + 1;
    }
    assert(all.subrange(0, all.len() as int) =~= all);
    out
}

/// The outcome of a validation that reported `errors`: valid when there are
/// none, otherwise an error of `heading`, a colon, and the errors joined by
/// commas.
pub open spec fn validation_verdict(heading: Seq<char>, errors: Seq<Seq<char>>) -> Result<(), Seq<char>> {
    if errors.len() == 0 { Ok(()) } else { Err(heading + ": "@ + join(errors, ", "@)) }
}

/// The verdict of one schema, written in `text`, on `v`.
pub open spec fn schema_verdict(heading: Seq<char>, text: Seq<char>, v: JsonValue) -> Result<(), Seq<char>> {
    validation_verdict(heading, error_lines(draft7_errors(text, json_text(v))))
}

/// The verdict on a message.
pub open spec fn message_verdict(v: JsonValue) -> Result<(), Seq<char>> {
    schema_verdict("Invalid JSON-RPC message"@, MESSAGE_SCHEMA@, v)
}

/// The verdict of the message schema, then of the schema written in `text`.
pub open spec fn message_then(heading: Seq<char>, text: Seq<char>, v: JsonValue) -> Result<(), Seq<char>> {
    match message_verdict(v) {
        Err(m) => Err(m),
        Ok(()) => schema_verdict(heading, text, v),
    }
}

/// The verdict on a request.
pub open spec fn request_verdict(v: JsonValue) -> Result<(), Seq<char>> {
    message_then("Invalid JSON-RPC request"@, REQUEST_SCHEMA@, v)
}

/// The verdict on a response.
pub open spec fn response_verdict(v: JsonValue) -> Result<(), Seq<char>> {
    message_then("Invalid JSON-RPC response"@, RESPONSE_SCHEMA@, v)
}

/// The verdict on a notification.
pub open spec fn notification_verdict(v: JsonValue) -> Result<(), Seq<char>> {
    message_then("Invalid JSON-RPC notification"@, NOTIFICATION_SCHEMA@, v)
}

/// The verdict on an error object.
pub open spec fn error_verdict(v: JsonValue) -> Result<(), Seq<char>> {
    schema_verdict("Invalid JSON-RPC error"@, ERROR_SCHEMA@, v)
}

/// A batch item is a valid request or a valid notification.
pub open spec fn item_valid(v: JsonValue) -> bool {
    request_verdict(v) is Ok || notification_verdict(v) is Ok
}

/// `r` carries the verdict `v`.
pub open spec fn reports(v: Result<(), Seq<char>>, r: McpResult<()>) -> bool {
    match v {
        Ok(()) => r is Ok,
        Err(m) => r matches Err(McpError::ValidationError(s)) && s@ == m,
    }
}

/// The outcome of a validation that reported `errors`.
pub fn validation_outcome(heading: &str, errors: &Vec<String>) -> (r: McpResult<()>)
    ensures
        match validation_verdict(heading@, strings_view(errors@)) {
            Ok(()) => r is Ok,
            Err(m) => r matches Err(McpError::ValidationError(s)) && s@ == m,
        },
{
    if errors.len() == 0 {
        return Ok(());
    }
    let joined = join_strings(errors, ", ");
    Err(McpError::ValidationError(concat3(heading, ": ", joined.as_str())))
}

/// The outcome of checking a batch, given whether it is an array, its length,
/// and for each item whether it is a valid request or notification: the
/// first invalid item is named by its index.
pub open spec fn batch_verdict(is_array: bool, len: nat, item_ok: Seq<bool>) -> Result<(), Seq<char>> {
    if !is_array {
        Err("Batch must be an array"@)
    } else if len == 0 {
        Err("Batch cannot be empty"@)
    } else if exists|i: int| 0 <= i < item_ok.len() && !item_ok[i] {
        let i = choose|i: int| 0 <= i < item_ok.len() && !item_ok[i] && forall|j: int| 0 <= j < i ==> item_ok[j];
        Err("Invalid item at index "@ + decimal(i as nat) + ": neither a valid request nor a notification"@)
    } else {
        Ok(())
    }
}

/// Validates messages against the JSON-RPC schemas.
#[derive(Debug)]
pub struct SchemaValidator {
    message_schema: CompiledSchema,
    request_schema: CompiledSchema,
    response_schema: CompiledSchema,
    notification_schema: CompiledSchema,
    error_schema: CompiledSchema,
}

/// With every item before `k` valid and the one at `k` not, the batch
/// verdict on the items up to `k` is that on all of them.
proof fn lemma_first_invalid(all: Seq<bool>, k: int, n: nat)
    requires
        0 <= k < all.len(),
        !all[k],
        forall|j: int| 0 <= j < k ==> all[j],
    ensures
        batch_verdict(true, n, all.subrange(0, k + 1)) == batch_verdict(true, n, all),
{
    let pre = all.subrange(0, k + 1);
    assert(!pre[k]);
    let c1 = choose|i: int| 0 <= i < pre.len() && !pre[i] && forall|j: int| 0 <= j < i ==> pre[j];
    let c2 = choose|i: int| 0 <= i < all.len() && !all[i] && forall|j: int| 0 <= j < i ==> all[j];
    assert(forall|j: int| 0 <= j < k ==> pre[j]);
    if c1 < k { assert(pre[c1]); }
    if c2 < k { assert(all[c2]); }
    if c1 > k { assert(pre[k]); }
    if c2 > k { assert(all[k]); }
}

impl SchemaValidator {
    #[verifier::type_invariant]
    closed spec fn compiled_from_texts(&self) -> bool {
        &&& self.message_schema.source() == MESSAGE_SCHEMA@
        &&& self.request_schema.source() == REQUEST_SCHEMA@
        &&& self.response_schema.source() == RESPONSE_SCHEMA@
        &&& self.notification_schema.source() == NOTIFICATION_SCHEMA@
        &&& self.error_schema.source() == ERROR_SCHEMA@
    }

    /// The texts of the validator's schemas: message, request, response,
    /// notification and error.
    pub closed spec fn sources(&self) -> Seq<Seq<char>> {
        seq![self.message_schema.source(), self.request_schema.source(), self.response_schema.source(),
            self.notification_schema.source(), self.error_schema.source()]
    }

    /// A validator with the five schemas compiled; they all compile.
    pub fn new() -> (r: SchemaValidator)
        ensures
            r.sources() == seq![MESSAGE_SCHEMA@, REQUEST_SCHEMA@, RESPONSE_SCHEMA@, NOTIFICATION_SCHEMA@, ERROR_SCHEMA@],
    {
        SchemaValidator {
            message_schema: compile_builtin(MESSAGE_SCHEMA),
            request_schema: compile_builtin(REQUEST_SCHEMA),
            response_schema: compile_builtin(RESPONSE_SCHEMA),
            notification_schema: compile_builtin(NOTIFICATION_SCHEMA),
            error_schema: compile_builtin(ERROR_SCHEMA),
        }
    }

    /// Validates a message: it carries version 2.0.
    pub fn validate_message(&self, message: &JsonValue) -> (r: McpResult<()>)
        ensures
            reports(message_verdict(*message), r),
    {
        proof { use_type_invariant(self); }
        let errors = schema_errors(&self.message_schema, message);
        validation_outcome("Invalid JSON-RPC message", &errors)
    }

    /// Validates a request: a message first, then the request schema.
    pub fn validate_request(&self, request: &JsonValue) -> (r: McpResult<()>)
        ensures
            reports(request_verdict(*request), r),
    {
        proof { use_type_invariant(self); }
        match self.validate_message(request) {
            Err(e) => return Err(e),
            Ok(()) => {},
        }
        let errors = schema_errors(&self.request_schema, request);
        validation_outcome("Invalid JSON-RPC request", &errors)
    }

    /// Validates a response: a message first, then the response schema.
    pub fn validate_response(&self, response: &JsonValue) -> (r: McpResult<()>)
        ensures
            reports(response_verdict(*response), r),
    {
        proof { use_type_invariant(self); }
        match self.validate_message(response) {
            Err(e) => return Err(e),
            Ok(()) => {},
        }
        let errors = schema_errors(&self.response_schema, response);
        validation_outcome("Invalid JSON-RPC response", &errors)
    }

    /// Validates a notification: a message first, then the notification schema.
    pub fn validate_notification(&self, notification: &JsonValue) -> (r: McpResult<()>)
        ensures
            reports(notification_verdict(*notification), r),
    {
        proof { use_type_invariant(self); }
        match self.validate_message(notification) {
            Err(e) => return Err(e),
            Ok(()) => {},
        }
        let errors = schema_errors(&self.notification_schema, notification);
        validation_outcome("Invalid JSON-RPC notification", &errors)
    }

    /// Validates an error object.
    pub fn validate_error(&self, error: &JsonValue) -> (r: McpResult<()>)
        ensures
            reports(error_verdict(*error), r),
    {
        proof { use_type_invariant(self); }
        let errors = schema_errors(&self.error_schema, error);
        validation_outcome("Invalid JSON-RPC error", &errors)
    }

    /// Validates a batch: a non-empty array each of whose items is a valid
    /// request or notification; the first invalid item is named.
    pub fn validate_batch(&self, batch: &JsonValue) -> (r: McpResult<()>)
        ensures
            match *batch {
                JsonValue::Array(items) => reports(batch_verdict(true, items@.len(), items@.map_values(|v: JsonValue| item_valid(v))), r),
                _ => reports(batch_verdict(false, 0, Seq::empty()), r),
            },
    {
        let items = match batch {
            JsonValue::Array(items) => items,
            _ => return Err(McpError::ValidationError(owned("Batch must be an array"))),
        };
        let ghost all = items@.map_values(|v: JsonValue| item_valid(v));
        let mut oks: Vec<bool> = Vec::new();
        let mut i: usize = 0;
        let mut failed = false;
        while i < items.len()
            invariant_except_break
                !failed,
            invariant
                i <= items@.len(),
                all == items@.map_values(|v: JsonValue| item_valid(v)),
                !failed ==> oks@ == all.subrange(0, i as int),
                !failed ==> forall|j: int| 0 <= j < i ==> all[j],
                failed ==> i < items@.len() && oks@ == all.subrange(0, i + 1) && !all[i as int]
                    && forall|j: int| 0 <= j < i ==> all[j],
            ensures
                failed ==> i < items@.len() && oks@ == all.subrange(0, i + 1) && !all[i as int]
                    && forall|j: int| 0 <= j < i ==> all[j],
                !failed ==> i == items@.len() && oks@ == all,
            decreases items.len() - i,
        {
            let ok = self.validate_request(&items[i]).is_ok() || self.validate_notification(&items[i]).is_ok();
            assert(ok == all[i as int]);
            oks.push(ok);
            assert(oks@ =~= all.subrange(0, i + 1));
            if !ok {
                failed = true;
                break;
            }
            i = i + 1;
        }
        proof {
            if failed {
                lemma_first_invalid(all, i as int, items@.len());
            } else {
                assert(all.subrange(0, items@.len() as int) =~= all);
            }
        }
        batch_outcome(true, items.len(), &oks)
    }
}

/// The outcome of checking a batch, given whether it is an array, its length,
/// and for each item checked whether it is a valid request or notification.
pub fn batch_outcome(is_array: bool, len: usize, item_ok: &Vec<bool>) -> (r: McpResult<()>)
    ensures
        match batch_verdict(is_array, len as nat, item_ok@) {
            Ok(()) => r is Ok,
            Err(m) => r matches Err(McpError::ValidationError(s)) && s@ == m,
        },
{
    if !is_array {
        return Err(McpError::ValidationError(owned("Batch must be an array")));
    }
    if len == 0 {
        return Err(McpError::ValidationError(owned("Batch cannot be empty")));
    }
    let mut i: usize = 0;
    while i < item_ok.len()
        invariant
            i <= item_ok@.len(),
            is_array,
            len > 0,
            forall|j: int| 0 <= j < i ==> item_ok@[j],
        decreases item_ok.len() - i,
    {
        if !item_ok[i] {
            proof {
                let c = choose|c: int| 0 <= c < item_ok@.len() && !item_ok@[c] && forall|j: int| 0 <= j < c ==> item_ok@[j];
                if c > i { assert(item_ok@[i as int]); }
                assert(c == i);
                assert(batch_verdict(is_array, len as nat, item_ok@) == Err::<(), Seq<char>>(
                    "Invalid item at index "@ + decimal(i as nat) + ": neither a valid request nor a notification"@));
            }
            let text = concat3("Invalid item at index ", u64_to_string(i as u64).as_str(), ": neither a valid request nor a notification");
            assert(text@ == "Invalid item at index "@ + decimal(i as nat) + ": neither a valid request nor a notification"@);
            return Err(McpError::ValidationError(text));
        }
        i = i + 1;
    }
    Ok(())
}

} // verus!
