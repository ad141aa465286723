//! The graph viewer's web requests: what a JSON request body asks of the
//! graph store, and the JSON answer that the request gets.

use vstd::prelude::*;
use crate::graph::{clone_string_map, graph_missing, GraphEdge, GraphNode, GraphStore, GraphUpdate, GraphUpdateType};
use crate::json::{json_get, json_model, json_str, JsonModel, JsonValue};
use crate::keyed::KeyedList;
use crate::text::{concat3, owned};

verus! {

/// The text of the string member `key` of a request body, or `default` where
/// the body has no such member or the member is not a string.
pub open spec fn text_or(payload: JsonValue, key: Seq<char>, default: Seq<char>) -> Seq<char> {
    match json_get(payload, key) {
        Some(v) => match json_str(v) {
            Some(s) => s,
            None => default,
        },
        None => default,
    }
}

/// Whether the request body has a string member `key`.
pub open spec fn has_text(payload: JsonValue, key: Seq<char>) -> bool {
    json_get(payload, key) matches Some(v) && json_str(v) is Some
}

/// The text of the string member `key` of `payload`, or `default`.
pub fn text_field_or(payload: &JsonValue, key: &str, default: &str) -> (r: String)
    ensures
        r@ == text_or(*payload, key@, default@),
{
    match payload.get(key) {
        Some(v) => match v.as_str() {
            Some(s) => owned(s),
            None => owned(default),
        },
        None => owned(default),
    }
}

/// The answer to a request that succeeded: `{"id": id, "success": true}`.
pub open spec fn success_reply(id: Seq<char>) -> JsonModel {
    JsonModel::Object(seq![("id"@, JsonModel::String(id)), ("success"@, JsonModel::Bool(true))])
}

/// The answer to a request that failed: `{"error": message, "success": false}`.
pub open spec fn failure_reply(message: Seq<char>) -> JsonModel {
    JsonModel::Object(seq![("error"@, JsonModel::String(message)), ("success"@, JsonModel::Bool(false))])
}

/// `{"id": id, "success": true}`.
pub fn success_json(id: String) -> (r: JsonValue)
    ensures
        json_model(r) == success_reply(id@),
{
    let ghost text = id@;
    let mut members: Vec<(String, JsonValue)> = Vec::new();
    members.push((owned("id"), JsonValue::String(id)));
    members.push((owned("success"), JsonValue::Bool(true)));
    let r = JsonValue::Object(members);
    proof {
        reveal_with_fuel(json_model, 2);
        assert(json_model(r)->Object_0 =~= success_reply(text)->Object_0);
    }
    r
}

/// `{"error": message, "success": false}`.
pub fn failure_json(message: String) -> (r: JsonValue)
    ensures
        json_model(r) == failure_reply(message@),
{
    let ghost text = message@;
    let mut members: Vec<(String, JsonValue)> = Vec::new();
    members.push((owned("error"), JsonValue::String(message)));
    members.push((owned("success"), JsonValue::Bool(false)));
    let r = JsonValue::Object(members);
    proof {
        reveal_with_fuel(json_model, 2);
        assert(json_model(r)->Object_0 =~= failure_reply(text)->Object_0);
    }
    r
}

/// Every graph of `after` is the graph of `before` under the same identifier.
pub open spec fn unchanged(before: GraphStore, after: GraphStore) -> bool {
    forall|id: Seq<char>| after.graph(id) == before.graph(id)
}

/// Every graph of `after` but the one under `graph_id` is that of `before`.
pub open spec fn others_unchanged(before: GraphStore, after: GraphStore, graph_id: Seq<char>) -> bool {
    forall|id: Seq<char>| id != graph_id ==> after.graph(id) == before.graph(id)
}

/// The node that a request to add a node describes, under the identifier
/// `id`: its name, kind and status are the body's string members `name`,
/// `node_type` and `status`, by default "Unnamed Node", "default" and "idle";
/// it has no properties.
pub open spec fn requested_node(payload: JsonValue, id: Seq<char>, n: GraphNode) -> bool {
    &&& n.id@ == id
    &&& n.name@ == text_or(payload, "name"@, "Unnamed Node"@)
    &&& n.node_type@ == text_or(payload, "node_type"@, "default"@)
    &&& n.status@ == text_or(payload, "status"@, "idle"@)
    &&& n.properties.entries().len() == 0
}

/// The edge that a request to add an edge describes, under the identifier
/// `id`: from the body's string members `source` and `target`, of the kind
/// `edge_type` ("default" where it is missing), without properties.
pub open spec fn requested_edge(payload: JsonValue, id: Seq<char>, e: GraphEdge) -> bool {
    &&& e.id@ == id
    &&& e.source@ == text_or(payload, "source"@, Seq::empty())
    &&& e.target@ == text_or(payload, "target"@, Seq::empty())
    &&& e.edge_type@ == text_or(payload, "edge_type"@, "default"@)
    &&& e.properties.entries().len() == 0
}

/// What a request to add a node under the identifier `node_id` to the graph
/// `graph_id` does, from the store `before` to the store `after`, and what it
/// answers, with the update to send to the viewers.
pub open spec fn answers_add_node(
    before: GraphStore,
    after: GraphStore,
    graph_id: Seq<char>,
    payload: JsonValue,
    node_id: Seq<char>,
    r: (JsonValue, Option<GraphUpdate>),
) -> bool {
    match before.graph(graph_id) {
        None => json_model(r.0) == failure_reply("Terminal error: "@ + graph_missing(graph_id))
            && r.1 is None && unchanged(before, after),
        Some(g) => json_model(r.0) == success_reply(node_id)
            && others_unchanged(before, after, graph_id)
            && (after.graph(graph_id) matches Some(h)
                && h.nodes@.len() == g.nodes@.len() + 1
                && h.nodes@.drop_last() == g.nodes@
                && requested_node(payload, node_id, h.nodes@.last())
                && h.edges@ == g.edges@ && h.id == g.id && h.name == g.name && h.graph_type == g.graph_type
                && h.properties == g.properties
                && (r.1 matches Some(u) && u.graph_id@ == graph_id && u.update_type == GraphUpdateType::NodeAdded
                    && u.graph is None && u.edge is None && (u.node matches Some(n) && n.same_as(&h.nodes@.last())))),
    }
}

/// What a request to add an edge under the identifier `edge_id` to the graph
/// `graph_id` does and answers.
pub open spec fn answers_add_edge(
    before: GraphStore,
    after: GraphStore,
    graph_id: Seq<char>,
    payload: JsonValue,
    edge_id: Seq<char>,
    r: (JsonValue, Option<GraphUpdate>),
) -> bool {
    if !has_text(payload, "source"@) {
        json_model(r.0) == failure_reply("Source node ID is required"@) && r.1 is None && unchanged(before, after)
    } else if !has_text(payload, "target"@) {
        json_model(r.0) == failure_reply("Target node ID is required"@) && r.1 is None && unchanged(before, after)
    } else {
        match before.graph(graph_id) {
            None => json_model(r.0) == failure_reply("Terminal error: "@ + graph_missing(graph_id))
                && r.1 is None && unchanged(before, after),
            Some(g) => json_model(r.0) == success_reply(edge_id)
                && others_unchanged(before, after, graph_id)
                && (after.graph(graph_id) matches Some(h)
                    && h.edges@.len() == g.edges@.len() + 1
                    && h.edges@.drop_last() == g.edges@
                    && requested_edge(payload, edge_id, h.edges@.last())
                    && h.nodes@ == g.nodes@ && h.id == g.id && h.name == g.name && h.graph_type == g.graph_type
                    && h.properties == g.properties
                    && (r.1 matches Some(u) && u.graph_id@ == graph_id && u.update_type == GraphUpdateType::EdgeAdded
                        && u.graph is None && u.node is None && (u.edge matches Some(e) && e.same_as(&h.edges@.last())))),
        }
    }
}

/// Whether some node of `nodes` has the identifier `id`.
pub open spec fn has_node(nodes: Seq<GraphNode>, id: Seq<char>) -> bool {
    exists|i: int| 0 <= i < nodes.len() && (#[trigger] nodes[i]).id@ == id
}

/// The first position of a node with the identifier `id`, where there is one.
pub open spec fn first_node(nodes: Seq<GraphNode>, id: Seq<char>) -> int {
    choose|i: int| 0 <= i < nodes.len() && (#[trigger] nodes[i]).id@ == id
        && forall|j: int| 0 <= j < i ==> (#[trigger] nodes[j]).id@ != id
}

/// What a request to set the status of the node `node_id` of the graph
/// `graph_id` does and answers: the node keeps all else, and takes the body's
/// string member `status`, or keeps its own status where there is none.
pub open spec fn answers_update_node(
    before: GraphStore,
    after: GraphStore,
    graph_id: Seq<char>,
    node_id: Seq<char>,
    payload: JsonValue,
    r: (JsonValue, Option<GraphUpdate>),
) -> bool {
    match before.graph(graph_id) {
        None => json_model(r.0) == failure_reply("Graph not found"@) && r.1 is None && unchanged(before, after),
        Some(g) => if !has_node(g.nodes@, node_id) {
            json_model(r.0) == failure_reply("Node "@ + node_id + " not found"@) && r.1 is None
                && unchanged(before, after)
        } else {
            let i = first_node(g.nodes@, node_id);
            let n = g.nodes@[i];
            json_model(r.0) == success_reply(node_id)
                && others_unchanged(before, after, graph_id)
                && (after.graph(graph_id) matches Some(h)
                    && h.nodes@ == g.nodes@.update(i, h.nodes@[i])
                    && h.nodes@[i].id == n.id && h.nodes@[i].name == n.name && h.nodes@[i].node_type == n.node_type
                    && h.nodes@[i].status@ == text_or(payload, "status"@, n.status@)
                    && h.nodes@[i].properties.entries() == n.properties.entries()
                    && h.edges@ == g.edges@ && h.id == g.id && h.name == g.name && h.graph_type == g.graph_type
                    && h.properties == g.properties
                    && (r.1 matches Some(u) && u.graph_id@ == graph_id && u.update_type == GraphUpdateType::NodeUpdated
                        && u.graph is None && u.edge is None && (u.node matches Some(m) && m.same_as(&h.nodes@[i]))))
        },
    }
}

/// The node that `payload` describes, under the identifier `id`.
pub fn node_from_request(payload: &JsonValue, id: String) -> (r: GraphNode)
    ensures
        requested_node(*payload, id@, r),
{
    GraphNode {
        id,
        name: text_field_or(payload, "name", "Unnamed Node"),
        node_type: text_field_or(payload, "node_type", "default"),
        status: text_field_or(payload, "status", "idle"),
        properties: KeyedList::new(),
    }
}

/// Adds the node that `payload` describes, under the identifier `node_id`,
/// to the graph `graph_id`.
pub fn add_node_with_id(store: &mut GraphStore, graph_id: &str, payload: &JsonValue, node_id: String) -> (r: (
    JsonValue,
    Option<GraphUpdate>,
))
    ensures
        answers_add_node(*old(store), *final(store), graph_id@, *payload, node_id@, r),
{
    let reply_id = node_id.clone();
    let node = node_from_request(payload, node_id);
    let ghost n = node;
    match store.add_node(graph_id, node) {
        Ok(u) => {
            proof {
                let h = store.graph(graph_id@)->0;
                let g = old(store).graph(graph_id@)->0;
                assert(h.nodes@.drop_last() =~= g.nodes@);
                assert(h.nodes@.last() == n);
            }
            (success_json(reply_id), Some(u))
        },
        Err(e) => (failure_json(e.to_string()), None),
    }
}

/// A request to add a node to the graph `graph_id` (the viewer's
/// `/api/node`); the node gets a fresh random identifier.
pub fn add_node_handler(store: &mut GraphStore, graph_id: &str, payload: &JsonValue) -> (r: (
    JsonValue,
    Option<GraphUpdate>,
))
    ensures
        exists|id: Seq<char>| crate::mcp::types::is_uuid_text(id)
            && answers_add_node(*old(store), *final(store), graph_id@, *payload, id, r),
{
    let id = crate::mcp::types::new_uuid_string();
    let ghost t = id@;
    let r = add_node_with_id(store, graph_id, payload, id);
    assert(crate::mcp::types::is_uuid_text(t));
    r
}

/// Adds the edge that `payload` describes, under the identifier `edge_id`,
/// to the graph `graph_id`.
pub fn add_edge_with_id(store: &mut GraphStore, graph_id: &str, payload: &JsonValue, edge_id: String) -> (r: (
    JsonValue,
    Option<GraphUpdate>,
))
    ensures
        answers_add_edge(*old(store), *final(store), graph_id@, *payload, edge_id@, r),
{
    let source = match payload.get("source") {
        Some(v) => match v.as_str() {
            Some(s) => owned(s),
            None => return (failure_json(owned("Source node ID is required")), None),
        },
        None => return (failure_json(owned("Source node ID is required")), None),
    };
    let target = match payload.get("target") {
        Some(v) => match v.as_str() {
            Some(t) => owned(t),
            None => return (failure_json(owned("Target node ID is required")), None),
        },
        None => return (failure_json(owned("Target node ID is required")), None),
    };
    let reply_id = edge_id.clone();
    let edge = GraphEdge {
        id: edge_id,
        source,
        target,
        edge_type: text_field_or(payload, "edge_type", "default"),
        properties: KeyedList::new(),
    };
    let ghost e = edge;
    match store.add_edge(graph_id, edge) {
        Ok(u) => {
            proof {
                let h = store.graph(graph_id@)->0;
                let g = old(store).graph(graph_id@)->0;
                assert(h.edges@.drop_last() =~= g.edges@);
                assert(h.edges@.last() == e);
            }
            (success_json(reply_id), Some(u))
        },
        Err(e) => (failure_json(e.to_string()), None),
    }
}

/// A request to add an edge to the graph `graph_id` (the viewer's
/// `/api/edge`); the edge gets a fresh random identifier.
pub fn add_edge_handler(store: &mut GraphStore, graph_id: &str, payload: &JsonValue) -> (r: (
    JsonValue,
    Option<GraphUpdate>,
))
    ensures
        exists|id: Seq<char>| crate::mcp::types::is_uuid_text(id)
            && answers_add_edge(*old(store), *final(store), graph_id@, *payload, id, r),
{
    let id = crate::mcp::types::new_uuid_string();
    let ghost t = id@;
    let r = add_edge_with_id(store, graph_id, payload, id);
    assert(crate::mcp::types::is_uuid_text(t));
    r
}

/// A request to set the status of the node `node_id` of the graph
/// `graph_id` (the viewer's `/api/node/{id}`).
pub fn update_node_handler(store: &mut GraphStore, graph_id: &str, node_id: &str, payload: &JsonValue) -> (r: (
    JsonValue,
    Option<GraphUpdate>,
))
    ensures
        answers_update_node(*old(store), *final(store), graph_id@, node_id@, *payload, r),
{
    let graph = match store.get_graph(graph_id) {
        Some(g) => g,
        None => return (failure_json(owned("Graph not found")), None),
    };
    let ghost g = store.graph(graph_id@)->0;
    let mut i: usize = 0;
    let mut found: Option<usize> = None;
    while i < graph.nodes.len() && found.is_none()
        invariant
            i <= graph.nodes@.len(),
            graph.same_as(&g),
            found is None ==> forall|j: int| 0 <= j < i ==> (#[trigger] g.nodes@[j]).id@ != node_id@,
            found matches Some(k) ==> k < g.nodes@.len() && g.nodes@[k as int].id@ == node_id@
                && forall|j: int| 0 <= j < k ==> (#[trigger] g.nodes@[j]).id@ != node_id@,
        decreases graph.nodes@.len() - i + if found is None { 1int } else { 0int },
    {
        assert(graph.nodes@[i as int].same_as(&g.nodes@[i as int]));
        if crate::text::str_eq(graph.nodes[i].id.as_str(), node_id) {
            found = Some(i);
        } else {
            i = i + 1;
        }
    }
    let k = match found {
        None => {
            proof {
                if has_node(g.nodes@, node_id@) {
                    let c = choose|c: int| 0 <= c < g.nodes@.len() && (#[trigger] g.nodes@[c]).id@ == node_id@;
                    assert(g.nodes@[c].id@ != node_id@);
                }
            }
            return (failure_json(concat3("Node ", node_id, " not found")), None);
        },
        Some(k) => k,
    };
    proof {
        assert(has_node(g.nodes@, node_id@));
        let c = first_node(g.nodes@, node_id@);
        assert(g.nodes@[k as int].id@ == node_id@);
        if c < k {
            assert(g.nodes@[c].id@ != node_id@);
        }
        if c > k {
            assert(g.nodes@[k as int].id@ != node_id@);
        }
        assert(c == k);
        assert(graph.nodes@[k as int].same_as(&g.nodes@[k as int]));
    }
    let node = &graph.nodes[k];
    let updated = GraphNode {
        id: node.id.clone(),
        name: node.name.clone(),
        node_type: node.node_type.clone(),
        status: text_field_or(payload, "status", node.status.as_str()),
        properties: clone_string_map(&node.properties),
    };
    let ghost m = updated;
    match store.update_node(graph_id, updated) {
        Ok(u) => {
            proof {
                let c = choose|c: int| 0 <= c < g.nodes@.len() && (#[trigger] g.nodes@[c]).id@ == m.id@
                    && forall|j: int| 0 <= j < c ==> (#[trigger] g.nodes@[j]).id@ != m.id@;
                if c < k {
                    assert(g.nodes@[c].id@ != node_id@);
                }
                if c > k {
                    assert(g.nodes@[k as int].id@ != node_id@);
                }
                let h = store.graph(graph_id@)->0;
                assert(h.nodes@[k as int] == m);
                assert(h.nodes@ =~= g.nodes@.update(k as int, h.nodes@[k as int]));
            }
            (success_json(owned(node_id)), Some(u))
        },
        Err(e) => (failure_json(e.to_string()), None),
    }
}

} // verus!
