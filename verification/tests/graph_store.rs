use mcp_agent::graph::{Error, Graph, GraphEdge, GraphNode, GraphStore, GraphUpdateType};
use mcp_agent::keyed::KeyedList;

fn node(id: &str, status: &str) -> GraphNode {
    GraphNode {
        id: id.to_string(),
        name: format!("node {}", id),
        node_type: "task".to_string(),
        status: status.to_string(),
        properties: KeyedList::new(),
    }
}

fn graph(id: &str) -> Graph {
    Graph {
        id: id.to_string(),
        name: "workflow".to_string(),
        graph_type: "dag".to_string(),
        nodes: vec![node("n1", "idle")],
        edges: vec![],
        properties: KeyedList::new(),
    }
}

#[test]
fn registered_graphs_are_found() {
    let mut s = GraphStore::new();
    assert!(s.get_graph("g").is_none());
    let u = s.register_graph(graph("g"));
    assert_eq!(u.graph_id, "g");
    assert_eq!(u.update_type, GraphUpdateType::FullUpdate);
    assert_eq!(u.graph.unwrap().nodes.len(), 1);
    let g = s.get_graph("g").unwrap();
    assert_eq!(g.name, "workflow");
    assert_eq!(g.nodes[0].id, "n1");
}

#[test]
fn nodes_and_edges_need_a_graph() {
    let mut s = GraphStore::new();
    match s.add_node("missing", node("n", "idle")) {
        Err(e) => assert_eq!(e, Error::TerminalError("Graph missing not found".to_string())),
        Ok(_) => panic!("expected an error"),
    }
    let edge = GraphEdge {
        id: "e".to_string(),
        source: "a".to_string(),
        target: "b".to_string(),
        edge_type: "flow".to_string(),
        properties: KeyedList::new(),
    };
    assert!(s.add_edge("missing", edge).is_err());
}

#[test]
fn nodes_are_added_and_updated() {
    let mut s = GraphStore::new();
    s.register_graph(graph("g"));
    let u = s.add_node("g", node("n2", "idle")).ok().unwrap();
    assert_eq!(u.update_type, GraphUpdateType::NodeAdded);
    assert_eq!(u.node.unwrap().id, "n2");
    assert_eq!(s.get_graph("g").unwrap().nodes.len(), 2);
    let u = s.update_node("g", node("n2", "running")).ok().unwrap();
    assert_eq!(u.update_type, GraphUpdateType::NodeUpdated);
    let g = s.get_graph("g").unwrap();
    assert_eq!(g.nodes.len(), 2);
    assert_eq!(g.nodes[1].status, "running");
    let edge = GraphEdge {
        id: "e1".to_string(),
        source: "n1".to_string(),
        target: "n2".to_string(),
        edge_type: "flow".to_string(),
        properties: KeyedList::new(),
    };
    let u = s.add_edge("g", edge).ok().unwrap();
    assert_eq!(u.update_type, GraphUpdateType::EdgeAdded);
    assert_eq!(s.get_graph("g").unwrap().edges.len(), 1);
}

#[test]
fn graph_error_texts() {
    assert_eq!(Error::TerminalError("x".to_string()).to_string(), "Terminal error: x");
    assert_eq!(Error::WebSocketError("y".to_string()).to_string(), "WebSocket error: y");
}
