//! The resources methods of a server: which method a request names, the
//! subscriptions of clients to resources, and the notifications sent about
//! them.

use vstd::prelude::*;
use crate::json::JsonValue;
use crate::keyed::{has_name, lemma_lookup_at, lookup, unique_names, KeyedList};
use crate::mcp::resources::error::ResourceError;
use crate::mcp::resources::models::{
    Resource, ResourceListResponse, ResourceSubscribeParams, ResourceUnsubscribeParams,
};
use crate::mcp::types::JsonRpcError;
use crate::text::{contains_str, owned, str_eq, strings_view, without_str};

verus! {

/// Which resources features a server offers.
#[derive(Debug, Clone, Copy, PartialEq, Eq)]
pub struct ResourcesCapabilities {
    /// Clients may subscribe to resources.
    pub subscribe: bool,
    /// The server announces changes of the resource list.
    pub list_changed: bool,
}

/// What a resources request asks for.
#[derive(Debug)]
pub enum ResourceRoute {
    /// `resources/list`
    List,
    /// `resources/read`
    Read,
    /// `resources/subscribe`
    Subscribe,
    /// `resources/unsubscribe`
    Unsubscribe,
    /// The request is answered with this error.
    Rejected(JsonRpcError),
}

/// The clients of `entries`, in order, whose subscriptions include `uri`.
pub open spec fn subscribers_of(entries: Seq<(String, Vec<String>)>, uri: Seq<char>) -> Seq<Seq<char>>
    decreases entries.len(),
{
    if entries.len() == 0 {
        Seq::empty()
    } else {
        let rest = subscribers_of(entries.drop_last(), uri);
        if strings_view(entries.last().1@).contains(uri) { rest.push(entries.last().0@) } else { rest }
    }
}

/// With distinct client names, a client is among the subscribers of `uri`
/// exactly when the URIs stored under its name include `uri`.
proof fn lemma_subscribers_of_lookup(entries: Seq<(String, Vec<String>)>, uri: Seq<char>, client: Seq<char>)
    requires
        unique_names(entries),
    ensures
        subscribers_of(entries, uri).contains(client) <==> (lookup(entries, client) matches Some(v)
            && strings_view(v@).contains(uri)),
    decreases entries.len(),
{
    if entries.len() > 0 {
        let t = entries.drop_last();
        let e = entries.last();
        let n = entries.len() - 1;
        assert(unique_names(t));
        lemma_subscribers_of_lookup(t, uri, client);
        let rest = subscribers_of(t, uri);
        if client == e.0@ {
            lemma_lookup_at(entries, n);
            assert(!has_name(t, client)) by {
                assert forall|a: int| 0 <= a < t.len() implies t[a].0@ != client by {
                    assert(entries[a] == t[a]);
                }
            }
            if strings_view(e.1@).contains(uri) {
                assert(rest.push(e.0@)[rest.len() as int] == client);
            } else {
                assert(subscribers_of(entries, uri) == rest);
            }
        } else {
            assert(lookup(entries, client) == lookup(t, client)) by {
                if has_name(t, client) {
                    let a = choose|a: int| 0 <= a < t.len() && t[a].0@ == client;
                    assert(entries[a] == t[a]);
                    lemma_lookup_at(entries, a);
                    lemma_lookup_at(t, a);
                } else {
                    assert forall|a: int| 0 <= a < entries.len() implies entries[a].0@ != client by {
                        if a < n { assert(entries[a] == t[a]); }
                    }
                }
            }
            if strings_view(e.1@).contains(uri) {
                let s = rest.push(e.0@);
                assert(s.contains(client) <==> rest.contains(client)) by {
                    if s.contains(client) {
                        let k = choose|k: int| 0 <= k < s.len() && s[k] == client;
                        assert(k < rest.len());
                        assert(rest[k] == client);
                    }
                    if rest.contains(client) {
                        let k = choose|k: int| 0 <= k < rest.len() && rest[k] == client;
                        assert(s[k] == client);
                    }
                }
            }
        }
    }
}

/// The resources of the listings, one after the other.
pub open spec fn all_resources(ls: Seq<ResourceListResponse>) -> Seq<Resource>
    decreases ls.len(),
{
    if ls.len() == 0 { Seq::empty() } else { all_resources(ls.drop_last()) + ls.last().resources@ }
}

/// The last next-page cursor that one of the listings gave.
pub open spec fn last_cursor(ls: Seq<ResourceListResponse>) -> Option<String>
    decreases ls.len(),
{
    if ls.len() == 0 {
        None
    } else if ls.last().next_cursor is Some {
        ls.last().next_cursor
    } else {
        last_cursor(ls.drop_last())
    }
}

/// The members of an object value, by their names' views and values.
pub open spec fn members_view(v: JsonValue) -> Seq<(Seq<char>, JsonValue)> {
    match v {
        JsonValue::Object(m) => m@.map_values(|p: (String, JsonValue)| (p.0@, p.1)),
        _ => Seq::empty(),
    }
}

/// A string value with the text `t`.
pub open spec fn is_text(v: JsonValue, t: Seq<char>) -> bool {
    v matches JsonValue::String(s) && s@ == t
}

/// The state of the resources methods: the capabilities offered and the
/// resources each client is subscribed to.
#[derive(Debug)]
pub struct ResourcesHandler {
    subscriptions: KeyedList<Vec<String>>,
    capabilities: ResourcesCapabilities,
}

impl ResourcesHandler {
    /// The capabilities offered.
    pub closed spec fn caps(&self) -> ResourcesCapabilities {
        self.capabilities
    }

    /// The URIs `client` is subscribed to, if it ever subscribed.
    pub closed spec fn subscriptions_of(&self, client: Seq<char>) -> Option<Seq<Seq<char>>> {
        match self.subscriptions.spec_get(client) {
            Some(v) => Some(strings_view(v@)),
            None => None,
        }
    }

    /// `client` is subscribed to `uri`.
    pub open spec fn is_subscribed(&self, client: Seq<char>, uri: Seq<char>) -> bool {
        self.subscriptions_of(client) matches Some(s) && s.contains(uri)
    }

    /// The clients subscribed to `uri`, in order of their first subscription.
    pub closed spec fn subscribers(&self, uri: Seq<char>) -> Seq<Seq<char>> {
        subscribers_of(self.subscriptions.entries(), uri)
    }

    /// A handler offering subscriptions and list-change notices, without
    /// subscriptions yet.
    pub fn new() -> (r: ResourcesHandler)
        ensures
            r.caps() == (ResourcesCapabilities { subscribe: true, list_changed: true }),
            forall|c: Seq<char>| r.subscriptions_of(c) is None,
    {
        ResourcesHandler {
            subscriptions: KeyedList::new(),
            capabilities: ResourcesCapabilities { subscribe: true, list_changed: true },
        }
    }

    /// The capabilities offered.
    pub fn capabilities(&self) -> (r: ResourcesCapabilities)
        ensures
            r == self.caps(),
    {
        self.capabilities
    }

    /// Replaces the capabilities offered.
    pub fn set_capabilities(&mut self, capabilities: ResourcesCapabilities)
        ensures
            final(self).caps() == capabilities,
            forall|c: Seq<char>| final(self).subscriptions_of(c) == old(self).subscriptions_of(c),
    {
        self.capabilities = capabilities;
    }

    /// Which method `method` names: the four resources methods, the two
    /// subscription ones only while subscriptions are offered.
    pub fn route(&self, method: &str) -> (r: ResourceRoute)
        ensures
            method@ == "resources/list"@ ==> r is List,
            method@ == "resources/read"@ ==> r is Read,
            (method@ == "resources/subscribe"@ || method@ == "resources/unsubscribe"@) && !self.caps().subscribe
                ==> (r matches ResourceRoute::Rejected(e) && e.code == -32601 && e.message@ == "Method not supported"@ && e.data is None),
            method@ == "resources/subscribe"@ && self.caps().subscribe ==> r is Subscribe,
            method@ == "resources/unsubscribe"@ && self.caps().subscribe ==> r is Unsubscribe,
            method@ != "resources/list"@ && method@ != "resources/read"@ && method@ != "resources/subscribe"@
                && method@ != "resources/unsubscribe"@
                ==> (r matches ResourceRoute::Rejected(e) && e.code == -32601 && e.message@ == "Method not found"@ && e.data is None),
    {
        proof {
            reveal_strlit("resources/list");
            reveal_strlit("resources/read");
            reveal_strlit("resources/subscribe");
            reveal_strlit("resources/unsubscribe");
            assert("resources/list"@[10] != "resources/read"@[10]);
            assert("resources/list"@ != "resources/read"@);
            assert("resources/subscribe"@.len() != "resources/unsubscribe"@.len());
        }
        if str_eq(method, "resources/list") {
            ResourceRoute::List
        } else if str_eq(method, "resources/read") {
            ResourceRoute::Read
        } else if str_eq(method, "resources/subscribe") || str_eq(method, "resources/unsubscribe") {
            if !self.capabilities.subscribe {
                ResourceRoute::Rejected(JsonRpcError::method_not_found("Method not supported"))
            } else if str_eq(method, "resources/subscribe") {
                ResourceRoute::Subscribe
            } else {
                ResourceRoute::Unsubscribe
            }
        } else {
            ResourceRoute::Rejected(JsonRpcError::method_not_found("Method not found"))
        }
    }

    /// Subscribes `client_id` to the resource `params.uri`.
    pub fn subscribe_resource(&mut self, client_id: &str, params: ResourceSubscribeParams) -> (r: Result<(), ResourceError>)
        ensures
            !old(self).caps().subscribe ==> (r matches Err(ResourceError::CapabilityNotSupported(m)) && m@ == "subscribe"@)
                && forall|c: Seq<char>| final(self).subscriptions_of(c) == old(self).subscriptions_of(c),
            old(self).caps().subscribe ==> r is Ok
                && final(self).subscriptions_of(client_id@) == Some(
                    match old(self).subscriptions_of(client_id@) {
                        Some(s) => if s.contains(params.uri@) { s } else { s.push(params.uri@) },
                        None => seq![params.uri@],
                    })
                && forall|c: Seq<char>| c != client_id@ ==> final(self).subscriptions_of(c) == old(self).subscriptions_of(c),
            old(self).caps().subscribe ==> final(self).is_subscribed(client_id@, params.uri@),
            final(self).caps() == old(self).caps(),
    {
        if !self.capabilities.subscribe {
            return Err(ResourceError::CapabilityNotSupported(owned("subscribe")));
        }
        let mut uris: Vec<String> = match self.subscriptions.get(client_id) {
            Some(v) => {
                let c = v.clone();
                assert(c@ =~= v@);
                c
            },
            None => Vec::new(),
        };
        if !contains_str(&uris, params.uri.as_str()) {
            let ghost before = uris@;
            uris.push(params.uri);
            assert(strings_view(uris@) =~= strings_view(before).push(params.uri@));
        }
        proof {
            if old(self).subscriptions_of(client_id@) is None {
                assert(strings_view(uris@) =~= seq![params.uri@]);
            }
            let sv = strings_view(uris@);
            if !sv.contains(params.uri@) {
                assert(sv[sv.len() - 1] == params.uri@);
            }
        }
        self.subscriptions.insert(owned(client_id), uris);
        Ok(())
    }

    /// Ends the subscription of `client_id` to the resource `params.uri`.
    pub fn unsubscribe_resource(&mut self, client_id: &str, params: ResourceUnsubscribeParams) -> (r: Result<(), ResourceError>)
        ensures
            !old(self).caps().subscribe ==> (r matches Err(ResourceError::CapabilityNotSupported(m)) && m@ == "subscribe"@)
                && forall|c: Seq<char>| final(self).subscriptions_of(c) == old(self).subscriptions_of(c),
            old(self).caps().subscribe ==> r is Ok
                && final(self).subscriptions_of(client_id@) == match old(self).subscriptions_of(client_id@) {
                        Some(s) => Some(s.filter(|x: Seq<char>| x != params.uri@)),
                        None => None,
                    }
                && forall|c: Seq<char>| c != client_id@ ==> final(self).subscriptions_of(c) == old(self).subscriptions_of(c),
            old(self).caps().subscribe ==> !final(self).is_subscribed(client_id@, params.uri@),
            final(self).caps() == old(self).caps(),
    {
        if !self.capabilities.subscribe {
            return Err(ResourceError::CapabilityNotSupported(owned("subscribe")));
        }
        let remaining = match self.subscriptions.get(client_id) {
            Some(v) => Some(without_str(v, params.uri.as_str())),
            None => None,
        };
        match remaining {
            Some(rest) => {
                self.subscriptions.insert(owned(client_id), rest);
            },
            None => {},
        }
        Ok(())
    }

    /// The clients subscribed to `uri`.
    pub fn get_subscribers_for_resource(&self, uri: &str) -> (r: Vec<String>)
        ensures
            strings_view(r@) == self.subscribers(uri@),
            forall|c: Seq<char>| strings_view(r@).contains(c) <==> self.is_subscribed(c, uri@),
    {
        let n = self.subscriptions.len();
        proof {
            assert forall|c: Seq<char>| self.subscribers(uri@).contains(c) <==> self.is_subscribed(c, uri@) by {
                lemma_subscribers_of_lookup(self.subscriptions.entries(), uri@, c);
            }
        }
        let mut out: Vec<String> = Vec::new();
        let mut i: usize = 0;
        assert(self.subscriptions.entries().subrange(0, 0) =~= Seq::<(String, Vec<String>)>::empty());
        while i < n
            invariant
                i <= n,
                n == self.subscriptions.entries().len(),
                strings_view(out@) == subscribers_of(self.subscriptions.entries().subrange(0, i as int), uri@),
            decreases n - i,
        {
            let (client, uris) = self.subscriptions.entry_at(i);
            let ghost before = out@;
            assert(self.subscriptions.entries().subrange(0, i + 1).drop_last() =~= self.subscriptions.entries().subrange(0, i as int));
            if contains_str(uris, uri) {
                out.push(client.clone());
                assert(strings_view(out@) =~= strings_view(before).push(client@));
            }
            i = i + 1;
        }
        assert(self.subscriptions.entries().subrange(0, n as int) =~= self.subscriptions.entries());
        out
    }

    /// The notice that the resource `uri` changed:
    /// `{"jsonrpc": "2.0", "method": "notifications/resources/updated", "params": {"uri": uri}}`.
    pub fn create_resource_updated_notification(&self, uri: &str) -> (r: JsonValue)
        ensures
            members_view(r).len() == 3,
            members_view(r)[0].0 == "jsonrpc"@ && is_text(members_view(r)[0].1, "2.0"@),
            members_view(r)[1].0 == "method"@ && is_text(members_view(r)[1].1, "notifications/resources/updated"@),
            members_view(r)[2].0 == "params"@,
            members_view(members_view(r)[2].1).len() == 1,
            members_view(members_view(r)[2].1)[0].0 == "uri"@ && is_text(members_view(members_view(r)[2].1)[0].1, uri@),
    {
        let mut params: Vec<(String, JsonValue)> = Vec::new();
        params.push((owned("uri"), JsonValue::String(owned(uri))));
        let mut m: Vec<(String, JsonValue)> = Vec::new();
        m.push((owned("jsonrpc"), JsonValue::String(owned("2.0"))));
        m.push((owned("method"), JsonValue::String(owned("notifications/resources/updated"))));
        m.push((owned("params"), JsonValue::Object(params)));
        JsonValue::Object(m)
    }

    /// The notice that the resource list changed:
    /// `{"jsonrpc": "2.0", "method": "notifications/resources/list_changed"}`.
    pub fn create_list_changed_notification(&self) -> (r: JsonValue)
        ensures
            members_view(r).len() == 2,
            members_view(r)[0].0 == "jsonrpc"@ && is_text(members_view(r)[0].1, "2.0"@),
            members_view(r)[1].0 == "method"@ && is_text(members_view(r)[1].1, "notifications/resources/list_changed"@),
    {
        let mut m: Vec<(String, JsonValue)> = Vec::new();
        m.push((owned("jsonrpc"), JsonValue::String(owned("2.0"))));
        m.push((owned("method"), JsonValue::String(owned("notifications/resources/list_changed"))));
        JsonValue::Object(m)
    }

    /// The listing of all providers: their resources one after the other, and
    /// the last next-page cursor any of them gave.
    pub fn merge_listings(listings: Vec<ResourceListResponse>) -> (r: ResourceListResponse)
        ensures
            r.resources@ == all_resources(listings@),
            r.next_cursor == last_cursor(listings@),
    {
        let ghost all = listings@;
        let mut resources: Vec<Resource> = Vec::new();
        let mut next_cursor: Option<String> = None;
        let mut rest = listings;
        let n = rest.len();
        let mut i: usize = 0;
        assert(all.subrange(0, 0) =~= Seq::<ResourceListResponse>::empty());
        assert(all.subrange(0, n as int) =~= all);
        while i < n
            invariant
                i <= n,
                n == all.len(),
                resources@ == all_resources(all.subrange(0, i as int)),
                next_cursor == last_cursor(all.subrange(0, i as int)),
                rest@ == all.subrange(i as int, n as int),
            decreases n - i,
        {
            let mut l = rest.remove(0);
            assert(l == all[i as int]);
            assert(all.subrange(0, i + 1).drop_last() =~= all.subrange(0, i as int));
            resources.append(&mut l.resources);
            if l.next_cursor.is_some() {
                next_cursor = l.next_cursor;
            }
            i = i + 1;
            assert(rest@ =~= all.subrange(i as int, n as int));
        }
        ResourceListResponse { resources, next_cursor }
    }

    /// The first provider that handles the URI, by what each answered, or an
    /// error naming the URI when none does.
    pub fn select_provider(handles: &Vec<bool>, uri: &str) -> (r: Result<usize, ResourceError>)
        ensures
            match r {
                Ok(i) => i < handles@.len() && handles@[i as int] && forall|j: int| 0 <= j < i ==> !handles@[j],
                Err(e) => (e matches ResourceError::ResourceNotFound(u) && u@ == uri@)
                    && forall|j: int| 0 <= j < handles@.len() ==> !handles@[j],
            },
    {
        let mut i: usize = 0;
        while i < handles.len()
            invariant
                i <= handles@.len(),
                forall|j: int| 0 <= j < i ==> !handles@[j],
            decreases handles.len() - i,
        {
            if handles[i] {
                return Ok(i);
            }
            i = i + 1;
        }
        Err(ResourceError::ResourceNotFound(owned(uri)))
    }
}

} // verus!
