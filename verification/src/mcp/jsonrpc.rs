//! JSON-RPC 2.0 dispatch: methods and notification handlers by name, the
//! answers to requests, and the requests that await a response.

use vstd::prelude::*;
use crate::json::JsonValue;
use crate::keyed::KeyedList;
use crate::mcp::types::{jsonrpc_version, JsonRpcError, JsonRpcNotification, JsonRpcRequest, JsonRpcResponse};
use crate::text::{concat2, concat3, owned, str_eq};
use crate::utils::error::{error_text, McpError, McpResult};

verus! {

/// The message of the error for a method that is not registered.
pub open spec fn method_missing_text(m: Seq<char>) -> Seq<char> {
    "Method '"@ + m + "' not found"@
}

/// The answer to a request whose handler returned `outcome`.
pub open spec fn answer_of(outcome: McpResult<JsonValue>, r: JsonRpcResponse, id: JsonValue) -> bool {
    &&& r.jsonrpc@ == jsonrpc_version()
    &&& r.id == id
    &&& match outcome {
        Ok(v) => r.result == Some(v) && r.error is None,
        Err(e) => r.result is None && (r.error matches Some(err) && err.code == -32603
            && err.message@ == error_text(e) && err.data is None),
    }
}

/// The outcome of a notification whose handler returned `out`.
pub open spec fn notified(out: McpResult<JsonValue>, r: McpResult<()>) -> bool {
    match out {
        Ok(_) => r is Ok,
        Err(e) => r == Err::<(), McpError>(e),
    }
}

/// `resp` answers `request` by the handlers of `h`: an invalid-request error
/// for a version other than 2.0, a method-not-found error for an unregistered
/// method, otherwise the handler's result, or its error as an internal error;
/// always under the request's identifier.
pub open spec fn request_answer<H: Fn(Option<JsonValue>) -> McpResult<JsonValue>, P>(
    h: JsonRpcHandler<H, P>,
    request: JsonRpcRequest,
    resp: JsonRpcResponse,
) -> bool {
    resp.jsonrpc@ == jsonrpc_version() && resp.id == request.id && {
        if request.jsonrpc@ != jsonrpc_version() {
            resp.result is None && (resp.error matches Some(e) && e.code == -32600
                && e.message@ == "Invalid JSON-RPC version"@ && e.data is None)
        } else {
            match h.method(request.method@) {
                None => resp.result is None && (resp.error matches Some(e) && e.code == -32601
                    && e.message@ == method_missing_text(request.method@) && e.data is None),
                Some(f) => exists|out: McpResult<JsonValue>| call_ensures(f, (request.params,), out)
                    && answer_of(out, resp, request.id),
            }
        }
    }
}

/// `r` is the outcome of `notification` under the handlers of `h`: an error
/// for a version other than 2.0, nothing for an unregistered name, otherwise
/// the handler's error if it fails.
pub open spec fn notification_outcome<H: Fn(Option<JsonValue>) -> McpResult<JsonValue>, P>(
    h: JsonRpcHandler<H, P>,
    notification: JsonRpcNotification,
    r: McpResult<()>,
) -> bool {
    &&& notification.jsonrpc@ != jsonrpc_version() ==> (r matches Err(McpError::InvalidMessage(m))
        && m@ == "Invalid JSON-RPC version: "@ + notification.jsonrpc@)
    &&& notification.jsonrpc@ == jsonrpc_version() ==> match h.notification_handler(notification.method@) {
        None => r is Ok,
        Some(f) => exists|out: McpResult<JsonValue>| call_ensures(f, (notification.params,), out)
            && notified(out, r),
    }
}

/// A JSON-RPC message read from the peer: a request, or a notification.
#[derive(Debug)]
pub enum IncomingMessage {
    /// A request, which is answered.
    Request(JsonRpcRequest),
    /// A notification, which is not.
    Notification(JsonRpcNotification),
}

/// Methods and notification handlers by name, and the requests sent that
/// await their response, each with what the response is handed to.
#[derive(Debug)]
pub struct JsonRpcHandler<H, P> {
    methods: KeyedList<H>,
    notification_handlers: KeyedList<H>,
    pending_requests: KeyedList<P>,
}

impl<H, P> JsonRpcHandler<H, P> {
    /// The handler of the method `name`.
    pub closed spec fn method(&self, name: Seq<char>) -> Option<H> {
        self.methods.spec_get(name)
    }

    /// The handler of the notification `name`.
    pub closed spec fn notification_handler(&self, name: Seq<char>) -> Option<H> {
        self.notification_handlers.spec_get(name)
    }

    /// What the response to the request `id` is handed to, while it is awaited.
    pub closed spec fn pending(&self, id: Seq<char>) -> Option<P> {
        self.pending_requests.spec_get(id)
    }

    /// A handler with no methods, no notification handlers and nothing awaited.
    pub fn new() -> (r: JsonRpcHandler<H, P>)
        ensures
            forall|n: Seq<char>| r.method(n) is None && r.notification_handler(n) is None && r.pending(n) is None,
    {
        JsonRpcHandler {
            methods: KeyedList::new(),
            notification_handlers: KeyedList::new(),
            pending_requests: KeyedList::new(),
        }
    }

    /// Registers `handler` for the method `name`, in place of any earlier one.
    pub fn register_method(&mut self, name: &str, handler: H) -> (r: McpResult<()>)
        ensures
            r is Ok,
            final(self).method(name@) == Some(handler),
            forall|n: Seq<char>| n != name@ ==> final(self).method(n) == old(self).method(n),
            forall|n: Seq<char>| final(self).notification_handler(n) == old(self).notification_handler(n),
            forall|n: Seq<char>| final(self).pending(n) == old(self).pending(n),
    {
        self.methods.insert(owned(name), handler);
        Ok(())
    }

    /// Registers `handler` for the notification `name`, in place of any earlier one.
    pub fn register_notification(&mut self, name: &str, handler: H) -> (r: McpResult<()>)
        ensures
            r is Ok,
            final(self).notification_handler(name@) == Some(handler),
            forall|n: Seq<char>| n != name@ ==> final(self).notification_handler(n) == old(self).notification_handler(n),
            forall|n: Seq<char>| final(self).method(n) == old(self).method(n),
            forall|n: Seq<char>| final(self).pending(n) == old(self).pending(n),
    {
        self.notification_handlers.insert(owned(name), handler);
        Ok(())
    }

    /// Answers a request: an invalid-request error for a version other than
    /// 2.0, a method-not-found error for an unregistered method, otherwise the
    /// handler's result, or its error as an internal error.
    pub fn handle_request(&self, request: JsonRpcRequest) -> (r: McpResult<JsonRpcResponse>)
        where H: Fn(Option<JsonValue>) -> McpResult<JsonValue>,
        requires
            self.method(request.method@) matches Some(h) ==> call_requires(h, (request.params,)),
        ensures
            r matches Ok(resp) && request_answer(*self, request, resp),
    {
        if !str_eq(request.jsonrpc.as_str(), "2.0") {
            proof { reveal_strlit("2.0"); }
            return Ok(JsonRpcResponse::error(JsonRpcError::invalid_request("Invalid JSON-RPC version"), request.id));
        }
        proof { reveal_strlit("2.0"); }
        match self.methods.get(request.method.as_str()) {
            Some(handler) => {
                let ghost params = request.params;
                let out = handler(request.params);
                proof {
                    assert(call_ensures(*handler, (params,), out));
                }
                let ghost outcome = out;
                let ghost id = request.id;
                let resp = match out {
                    Ok(result) => JsonRpcResponse::success(result, request.id),
                    Err(error) => {
                        let text = error.to_text();
                        JsonRpcResponse::error(JsonRpcError::internal_error(text.as_str()), request.id)
                    },
                };
                assert(answer_of(outcome, resp, id));
                assert(call_ensures(*handler, (params,), outcome));
                Ok(resp)
            },
            None => {
                let text = concat3("Method '", request.method.as_str(), "' not found");
                Ok(JsonRpcResponse::error(JsonRpcError::method_not_found(text.as_str()), request.id))
            },
        }
    }

    /// Handles a notification: an error for a version other than 2.0, nothing
    /// for an unregistered name, otherwise the handler's error if it fails.
    pub fn handle_notification(&self, notification: JsonRpcNotification) -> (r: McpResult<()>)
        where H: Fn(Option<JsonValue>) -> McpResult<JsonValue>,
        requires
            self.notification_handler(notification.method@) matches Some(h) ==> call_requires(h, (notification.params,)),
        ensures
            notification_outcome(*self, notification, r),
    {
        proof { reveal_strlit("2.0"); }
        if !str_eq(notification.jsonrpc.as_str(), "2.0") {
            return Err(McpError::InvalidMessage(concat2("Invalid JSON-RPC version: ", notification.jsonrpc.as_str())));
        }
        match self.notification_handlers.get(notification.method.as_str()) {
            Some(handler) => {
                let ghost params = notification.params;
                let out = handler(notification.params);
                let ghost outcome = out;
                proof {
                    assert(call_ensures(*handler, (params,), outcome));
                }
                let r = match out {
                    Ok(_) => Ok(()),
                    Err(e) => Err(e),
                };
                assert(notified(outcome, r));
                r
            },
            None => Ok(()),
        }
    }

    /// Processes a message read from the peer: a request gets its answer; a
    /// notification is handled and gets none.
    pub fn process_message(&self, message: IncomingMessage) -> (r: McpResult<Option<JsonRpcResponse>>)
        where H: Fn(Option<JsonValue>) -> McpResult<JsonValue>,
        requires
            match message {
                IncomingMessage::Request(q) => self.method(q.method@) matches Some(f) ==> call_requires(f, (q.params,)),
                IncomingMessage::Notification(n) => self.notification_handler(n.method@) matches Some(f)
                    ==> call_requires(f, (n.params,)),
            },
        ensures
            match message {
                IncomingMessage::Request(q) => r matches Ok(Some(resp)) && request_answer(*self, q, resp),
                IncomingMessage::Notification(n) => exists|x: McpResult<()>| #[trigger] notification_outcome(*self, n, x)
                    && r == match x {
                        Ok(_) => Ok::<Option<JsonRpcResponse>, McpError>(None),
                        Err(e) => Err(e),
                    },
            },
    {
        match message {
            IncomingMessage::Request(q) => match self.handle_request(q) {
                Ok(resp) => Ok(Some(resp)),
                Err(e) => Err(e),
            },
            IncomingMessage::Notification(n) => {
                let ghost gn = n;
                let x = self.handle_notification(n);
                assert(notification_outcome(*self, gn, x));
                match x {
                    Ok(()) => Ok(None),
                    Err(e) => Err(e),
                }
            },
        }
    }

    /// Awaits the response to the request `id`, handing it to `sender` when it
    /// comes.
    pub fn add_pending(&mut self, id: String, sender: P)
        ensures
            final(self).pending(id@) == Some(sender),
            forall|n: Seq<char>| n != id@ ==> final(self).pending(n) == old(self).pending(n),
            forall|n: Seq<char>| final(self).method(n) == old(self).method(n),
            forall|n: Seq<char>| final(self).notification_handler(n) == old(self).notification_handler(n),
    {
        self.pending_requests.insert(id, sender);
    }

    /// Takes the awaited request that a response answers: an error for a
    /// version other than 2.0, for an identifier that is no string, or for one
    /// that nothing awaits; otherwise what the response is handed to, which
    /// then no longer awaits it.
    pub fn handle_response(&mut self, response: &JsonRpcResponse) -> (r: McpResult<P>)
        ensures
            response.jsonrpc@ != jsonrpc_version() ==> (r matches Err(McpError::InvalidMessage(m))
                && m@ == "Invalid JSON-RPC version: "@ + response.jsonrpc@)
                && forall|n: Seq<char>| final(self).pending(n) == old(self).pending(n),
            response.jsonrpc@ == jsonrpc_version() && !(response.id is String) ==> (r matches Err(McpError::InvalidMessage(m))
                && m@ == "Invalid response ID type"@)
                && forall|n: Seq<char>| final(self).pending(n) == old(self).pending(n),
            response.jsonrpc@ == jsonrpc_version() ==> match response.id {
                JsonValue::String(id) => {
                    &&& final(self).pending(id@) is None
                    &&& forall|n: Seq<char>| n != id@ ==> final(self).pending(n) == old(self).pending(n)
                    &&& match old(self).pending(id@) {
                        Some(p) => r == Ok::<P, McpError>(p),
                        None => r matches Err(McpError::InvalidState(m)) && m@ == "No pending request found for response ID: "@ + id@,
                    }
                },
                _ => true,
            },
            forall|n: Seq<char>| final(self).method(n) == old(self).method(n),
            forall|n: Seq<char>| final(self).notification_handler(n) == old(self).notification_handler(n),
    {
        proof { reveal_strlit("2.0"); }
        if !str_eq(response.jsonrpc.as_str(), "2.0") {
            return Err(McpError::InvalidMessage(concat2("Invalid JSON-RPC version: ", response.jsonrpc.as_str())));
        }
        let id = match &response.id {
            JsonValue::String(s) => s,
            _ => return Err(McpError::InvalidMessage(owned("Invalid response ID type"))),
        };
        match self.pending_requests.remove(id.as_str()) {
            Some(p) => Ok(p),
            None => Err(McpError::InvalidState(concat2("No pending request found for response ID: ", id.as_str()))),
        }
    }
}

/// What a request sent gives back from its response: the error's code (as an
/// unsigned number) and message, else the result, else an error that there
/// is none.
pub fn response_outcome(response: JsonRpcResponse) -> (r: McpResult<JsonValue>)
    ensures
        match response.error {
            Some(e) => r == Err::<JsonValue, McpError>(McpError::Custom { code: e.code as u32, message: e.message }),
            None => match response.result {
                Some(v) => r == Ok::<JsonValue, McpError>(v),
                None => r matches Err(McpError::InvalidMessage(m)) && m@ == "No result in response"@,
            },
        },
{
    match response.error {
        Some(e) => Err(McpError::Custom { code: e.code as u32, message: e.message }),
        None => match response.result {
            Some(v) => Ok(v),
            None => Err(McpError::InvalidMessage(owned("No result in response"))),
        },
    }
}

} // verus!
