use mcp_agent::graph::{Graph, GraphNode, GraphStore, GraphUpdateType};
use mcp_agent::graph_requests::{
    add_edge_handler, add_edge_with_id, add_node_handler, add_node_with_id, text_field_or, update_node_handler,
};
use mcp_agent::json::JsonValue;
use mcp_agent::keyed::KeyedList;

fn text(s: &str) -> JsonValue {
    JsonValue::String(s.to_string())
}

fn body(members: Vec<(&str, JsonValue)>) -> JsonValue {
    JsonValue::Object(members.into_iter().map(|(k, v)| (k.to_string(), v)).collect())
}

fn store() -> GraphStore {
    let mut s = GraphStore::new();
    s.register_graph(Graph {
        id: "example-graph".to_string(),
        name: "Example Graph".to_string(),
        graph_type: "demo".to_string(),
        nodes: vec![GraphNode {
            id: "node1".to_string(),
            name: "Start".to_string(),
            node_type: "process".to_string(),
            status: "completed".to_string(),
            properties: KeyedList::new(),
        }],
        edges: vec![],
        properties: KeyedList::new(),
    });
    s
}

fn success(id: &str) -> JsonValue {
    body(vec![("id", text(id)), ("success", JsonValue::Bool(true))])
}

fn failure(message: &str) -> JsonValue {
    body(vec![("error", text(message)), ("success", JsonValue::Bool(false))])
}

#[test]
fn missing_members_take_their_defaults() {
    let b = body(vec![("name", text("Load")), ("status", JsonValue::Bool(true))]);
    assert_eq!(text_field_or(&b, "name", "Unnamed Node"), "Load");
    assert_eq!(text_field_or(&b, "status", "idle"), "idle");
    assert_eq!(text_field_or(&b, "node_type", "default"), "default");
    assert_eq!(text_field_or(&JsonValue::Null, "name", "Unnamed Node"), "Unnamed Node");
}

#[test]
fn added_nodes_join_the_end_of_the_graph() {
    let mut s = store();
    let (reply, update) = add_node_with_id(&mut s, "example-graph", &body(vec![("name", text("Load"))]), "node9".to_string());
    assert_eq!(reply, success("node9"));
    let update = update.unwrap();
    assert_eq!(update.update_type, GraphUpdateType::NodeAdded);
    let g = s.get_graph("example-graph").unwrap();
    assert_eq!(g.nodes.len(), 2);
    assert_eq!(g.nodes[1].id, "node9");
    assert_eq!(g.nodes[1].name, "Load");
    assert_eq!(g.nodes[1].node_type, "default");
    assert_eq!(g.nodes[1].status, "idle");
}

#[test]
fn a_missing_graph_is_reported() {
    let mut s = store();
    let (reply, update) = add_node_with_id(&mut s, "other", &JsonValue::Null, "n".to_string());
    assert_eq!(reply, failure("Terminal error: Graph other not found"));
    assert!(update.is_none());
}

#[test]
fn fresh_nodes_get_uuid_identifiers() {
    let mut s = store();
    let (reply, _) = add_node_handler(&mut s, "example-graph", &JsonValue::Null);
    let g = s.get_graph("example-graph").unwrap();
    let id = g.nodes[1].id.clone();
    assert_eq!(id.len(), 36);
    assert_ne!(id, "");
    assert_eq!(reply, success(&id));
    assert_eq!(g.nodes[1].name, "Unnamed Node");
}

#[test]
fn edges_need_a_source_and_a_target() {
    let mut s = store();
    let (reply, update) = add_edge_with_id(&mut s, "example-graph", &body(vec![("target", text("node1"))]), "e".to_string());
    assert_eq!(reply, failure("Source node ID is required"));
    assert!(update.is_none());
    let (reply, _) = add_edge_with_id(&mut s, "example-graph", &body(vec![("source", text("node1"))]), "e".to_string());
    assert_eq!(reply, failure("Target node ID is required"));
    assert_eq!(s.get_graph("example-graph").unwrap().edges.len(), 0);
}

#[test]
fn added_edges_join_the_end_of_the_graph() {
    let mut s = store();
    let b = body(vec![("source", text("node1")), ("target", text("node2"))]);
    let (reply, update) = add_edge_with_id(&mut s, "example-graph", &b, "edge7".to_string());
    assert_eq!(reply, success("edge7"));
    assert_eq!(update.unwrap().update_type, GraphUpdateType::EdgeAdded);
    let g = s.get_graph("example-graph").unwrap();
    assert_eq!(g.edges[0].source, "node1");
    assert_eq!(g.edges[0].target, "node2");
    assert_eq!(g.edges[0].edge_type, "default");
    let (reply, _) = add_edge_handler(&mut s, "example-graph", &b);
    let g = s.get_graph("example-graph").unwrap();
    assert_eq!(reply, success(&g.edges[1].id));
}

#[test]
fn node_updates_set_the_status() {
    let mut s = store();
    let (reply, update) = update_node_handler(&mut s, "example-graph", "node1", &body(vec![("status", text("running"))]));
    assert_eq!(reply, success("node1"));
    assert_eq!(update.unwrap().update_type, GraphUpdateType::NodeUpdated);
    let g = s.get_graph("example-graph").unwrap();
    assert_eq!(g.nodes[0].status, "running");
    assert_eq!(g.nodes[0].name, "Start");
    let (reply, _) = update_node_handler(&mut s, "example-graph", "node1", &JsonValue::Null);
    assert_eq!(reply, success("node1"));
    assert_eq!(s.get_graph("example-graph").unwrap().nodes[0].status, "running");
}

#[test]
fn node_updates_report_what_is_missing() {
    let mut s = store();
    let (reply, update) = update_node_handler(&mut s, "example-graph", "node5", &JsonValue::Null);
    assert_eq!(reply, failure("Node node5 not found"));
    assert!(update.is_none());
    let (reply, _) = update_node_handler(&mut s, "nothing", "node1", &JsonValue::Null);
    assert_eq!(reply, failure("Graph not found"));
}
