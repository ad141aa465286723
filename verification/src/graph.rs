//! Graphs shown to a user as they change: their nodes and edges, the store
//! that keeps them by identifier, and the updates that each change sends to
//! the viewers.

use vstd::prelude::*;
use crate::keyed::KeyedList;
use crate::text::{concat2, concat3, concat4, owned, str_eq};

verus! {

/// Errors of the graph store.
#[derive(Debug, PartialEq, Eq)]
pub enum Error {
    /// A graph or node is missing.
    TerminalError(String),
    /// A viewer could not be reached.
    WebSocketError(String),
}

impl Error {
    /// The error's message.
    pub fn to_string(&self) -> (r: String)
        ensures
            r@ == match *self {
                Error::TerminalError(m) => "Terminal error: "@ + m@,
                Error::WebSocketError(m) => "WebSocket error: "@ + m@,
            },
    {
        match self {
            Error::TerminalError(m) => concat2("Terminal error: ", m.as_str()),
            Error::WebSocketError(m) => concat2("WebSocket error: ", m.as_str()),
        }
    }
}

/// A copy of a map from names to strings.
pub fn clone_string_map(m: &KeyedList<String>) -> (r: KeyedList<String>)
    ensures
        r.entries() == m.entries(),
{
    let c = m.clone();
    assert forall|i: int| 0 <= i < c.entries().len() implies #[trigger] c.entries()[i] == m.entries()[i] by {
        assert(cloned::<String>(m.entries()[i].1, c.entries()[i].1));
    }
    assert(c.entries() =~= m.entries());
    c
}

/// A node of a graph.
#[derive(Debug)]
pub struct GraphNode {
    /// The node's identifier.
    pub id: String,
    /// Its name.
    pub name: String,
    /// Its kind.
    pub node_type: String,
    /// Its status.
    pub status: String,
    /// Further properties.
    pub properties: KeyedList<String>,
}

impl GraphNode {
    /// Two nodes agree in every field.
    pub open spec fn same_as(&self, o: &GraphNode) -> bool {
        self.id == o.id && self.name == o.name && self.node_type == o.node_type && self.status == o.status
            && self.properties.entries() == o.properties.entries()
    }
}

impl Clone for GraphNode {
    fn clone(&self) -> (r: Self)
        ensures
            r.same_as(self),
    {
        GraphNode {
            id: self.id.clone(),
            name: self.name.clone(),
            node_type: self.node_type.clone(),
            status: self.status.clone(),
            properties: clone_string_map(&self.properties),
        }
    }
}

/// An edge of a graph.
#[derive(Debug)]
pub struct GraphEdge {
    /// The edge's identifier.
    pub id: String,
    /// The node it leaves.
    pub source: String,
    /// The node it enters.
    pub target: String,
    /// Its kind.
    pub edge_type: String,
    /// Further properties.
    pub properties: KeyedList<String>,
}

impl GraphEdge {
    /// Two edges agree in every field.
    pub open spec fn same_as(&self, o: &GraphEdge) -> bool {
        self.id == o.id && self.source == o.source && self.target == o.target && self.edge_type == o.edge_type
            && self.properties.entries() == o.properties.entries()
    }
}

impl Clone for GraphEdge {
    fn clone(&self) -> (r: Self)
        ensures
            r.same_as(self),
    {
        GraphEdge {
            id: self.id.clone(),
            source: self.source.clone(),
            target: self.target.clone(),
            edge_type: self.edge_type.clone(),
            properties: clone_string_map(&self.properties),
        }
    }
}

/// A graph.
#[derive(Debug)]
pub struct Graph {
    /// The graph's identifier.
    pub id: String,
    /// Its name.
    pub name: String,
    /// Its kind.
    pub graph_type: String,
    /// Its nodes, in order.
    pub nodes: Vec<GraphNode>,
    /// Its edges, in order.
    pub edges: Vec<GraphEdge>,
    /// Further properties.
    pub properties: KeyedList<String>,
}

impl Graph {
    /// Two graphs agree in every field, node by node and edge by edge.
    pub open spec fn same_as(&self, o: &Graph) -> bool {
        &&& self.id == o.id && self.name == o.name && self.graph_type == o.graph_type
        &&& self.properties.entries() == o.properties.entries()
        &&& self.nodes@.len() == o.nodes@.len()
        &&& forall|i: int| 0 <= i < self.nodes@.len() ==> (#[trigger] self.nodes@[i]).same_as(&o.nodes@[i])
        &&& self.edges@.len() == o.edges@.len()
        &&& forall|i: int| 0 <= i < self.edges@.len() ==> (#[trigger] self.edges@[i]).same_as(&o.edges@[i])
    }
}

impl Clone for Graph {
    fn clone(&self) -> (r: Self)
        ensures
            r.same_as(self),
    {
        let nodes = self.nodes.clone();
        let edges = self.edges.clone();
        proof {
            assert forall|i: int| 0 <= i < self.nodes@.len() implies (#[trigger] nodes@[i]).same_as(&self.nodes@[i]) by {
                assert(cloned::<GraphNode>(self.nodes@[i], nodes@[i]));
            }
            assert forall|i: int| 0 <= i < self.edges@.len() implies (#[trigger] edges@[i]).same_as(&self.edges@[i]) by {
                assert(cloned::<GraphEdge>(self.edges@[i], edges@[i]));
            }
        }
        Graph {
            id: self.id.clone(),
            name: self.name.clone(),
            graph_type: self.graph_type.clone(),
            nodes,
            edges,
            properties: clone_string_map(&self.properties),
        }
    }
}

/// The kind of change an update announces.
#[derive(Debug, Clone, Copy, PartialEq, Eq)]
pub enum GraphUpdateType {
    /// The whole graph, newly registered.
    FullUpdate,
    /// A node was added.
    NodeAdded,
    /// A node was replaced.
    NodeUpdated,
    /// An edge was added.
    EdgeAdded,
}

/// A change of a graph, sent to its viewers.
#[derive(Debug)]
pub struct GraphUpdate {
    /// The graph changed.
    pub graph_id: String,
    /// The kind of change.
    pub update_type: GraphUpdateType,
    /// The whole graph, for a full update.
    pub graph: Option<Graph>,
    /// The node added or replaced.
    pub node: Option<GraphNode>,
    /// The edge added.
    pub edge: Option<GraphEdge>,
}

impl Clone for GraphUpdate {
    fn clone(&self) -> (r: Self)
        ensures
            r.graph_id == self.graph_id,
            r.update_type == self.update_type,
            match (r.graph, self.graph) {
                (Some(a), Some(b)) => a.same_as(&b),
                (None, None) => true,
                _ => false,
            },
            match (r.node, self.node) {
                (Some(a), Some(b)) => a.same_as(&b),
                (None, None) => true,
                _ => false,
            },
            match (r.edge, self.edge) {
                (Some(a), Some(b)) => a.same_as(&b),
                (None, None) => true,
                _ => false,
            },
    {
        GraphUpdate {
            graph_id: self.graph_id.clone(),
            update_type: self.update_type,
            graph: match &self.graph { Some(g) => Some(g.clone()), None => None },
            node: match &self.node { Some(n) => Some(n.clone()), None => None },
            edge: match &self.edge { Some(e) => Some(e.clone()), None => None },
        }
    }
}

/// The error for a graph that is not registered.
pub open spec fn graph_missing(id: Seq<char>) -> Seq<char> {
    "Graph "@ + id + " not found"@
}

/// The graphs shown, by identifier.
#[derive(Debug)]
pub struct GraphStore {
    graphs: KeyedList<Graph>,
}

impl GraphStore {
    /// The graph registered under `id`.
    pub closed spec fn graph(&self, id: Seq<char>) -> Option<Graph> {
        self.graphs.spec_get(id)
    }

    /// A store without graphs.
    pub fn new() -> (r: GraphStore)
        ensures
            forall|id: Seq<char>| r.graph(id) is None,
    {
        GraphStore { graphs: KeyedList::new() }
    }

    /// Registers `graph` under its identifier, in place of any graph there;
    /// the update sent carries a copy of the whole graph.
    pub fn register_graph(&mut self, graph: Graph) -> (r: GraphUpdate)
        ensures
            final(self).graph(graph.id@) == Some(graph),
            forall|id: Seq<char>| id != graph.id@ ==> final(self).graph(id) == old(self).graph(id),
            r.graph_id == graph.id,
            r.update_type == GraphUpdateType::FullUpdate,
            r.graph matches Some(g) && g.same_as(&graph),
            r.node is None && r.edge is None,
    {
        let copy = graph.clone();
        let id = graph.id.clone();
        let id2 = graph.id.clone();
        let _ = self.graphs.insert(id, graph);
        GraphUpdate { graph_id: id2, update_type: GraphUpdateType::FullUpdate, graph: Some(copy), node: None, edge: None }
    }

    /// A copy of the graph registered under `graph_id`.
    pub fn get_graph(&self, graph_id: &str) -> (r: Option<Graph>)
        ensures
            match self.graph(graph_id@) {
                Some(g) => r matches Some(c) && c.same_as(&g),
                None => r is None,
            },
    {
        match self.graphs.get(graph_id) {
            Some(g) => Some(g.clone()),
            None => None,
        }
    }

    /// Adds `node` at the end of the nodes of the graph `graph_id`.
    pub fn add_node(&mut self, graph_id: &str, node: GraphNode) -> (r: Result<GraphUpdate, Error>)
        ensures
            match old(self).graph(graph_id@) {
                None => (r matches Err(Error::TerminalError(m)) && m@ == graph_missing(graph_id@))
                    && forall|id: Seq<char>| final(self).graph(id) == old(self).graph(id),
                Some(g) => (r matches Ok(u) && u.graph_id@ == graph_id@ && u.update_type == GraphUpdateType::NodeAdded
                    && u.graph is None && u.edge is None && (u.node matches Some(n) && n.same_as(&node)))
                    && (final(self).graph(graph_id@) matches Some(h) && h.nodes@ == g.nodes@.push(node)
                        && h.edges@ == g.edges@ && h.id == g.id && h.name == g.name && h.graph_type == g.graph_type
                        && h.properties == g.properties)
                    && forall|id: Seq<char>| id != graph_id@ ==> final(self).graph(id) == old(self).graph(id),
            },
    {
        match self.graphs.remove(graph_id) {
            None => Err(Error::TerminalError(concat3("Graph ", graph_id, " not found"))),
            Some(g) => {
                let copy = node.clone();
                let mut g = g;
                g.nodes.push(node);
                let _ = self.graphs.insert(owned(graph_id), g);
                Ok(GraphUpdate { graph_id: owned(graph_id), update_type: GraphUpdateType::NodeAdded, graph: None, node: Some(copy), edge: None })
            },
        }
    }

    /// Adds `edge` at the end of the edges of the graph `graph_id`.
    pub fn add_edge(&mut self, graph_id: &str, edge: GraphEdge) -> (r: Result<GraphUpdate, Error>)
        ensures
            match old(self).graph(graph_id@) {
                None => (r matches Err(Error::TerminalError(m)) && m@ == graph_missing(graph_id@))
                    && forall|id: Seq<char>| final(self).graph(id) == old(self).graph(id),
                Some(g) => (r matches Ok(u) && u.graph_id@ == graph_id@ && u.update_type == GraphUpdateType::EdgeAdded
                    && u.graph is None && u.node is None && (u.edge matches Some(e) && e.same_as(&edge)))
                    && (final(self).graph(graph_id@) matches Some(h) && h.edges@ == g.edges@.push(edge)
                        && h.nodes@ == g.nodes@ && h.id == g.id && h.name == g.name && h.graph_type == g.graph_type
                        && h.properties == g.properties)
                    && forall|id: Seq<char>| id != graph_id@ ==> final(self).graph(id) == old(self).graph(id),
            },
    {
        match self.graphs.remove(graph_id) {
            None => Err(Error::TerminalError(concat3("Graph ", graph_id, " not found"))),
            Some(g) => {
                let copy = edge.clone();
                let mut g = g;
                g.edges.push(edge);
                let _ = self.graphs.insert(owned(graph_id), g);
                Ok(GraphUpdate { graph_id: owned(graph_id), update_type: GraphUpdateType::EdgeAdded, graph: None, node: None, edge: Some(copy) })
            },
        }
    }

    /// Replaces the first node of the graph `graph_id` with the identifier of
    /// `node` by `node`.
    pub fn update_node(&mut self, graph_id: &str, node: GraphNode) -> (r: Result<GraphUpdate, Error>)
        ensures
            match old(self).graph(graph_id@) {
                None => (r matches Err(Error::TerminalError(m)) && m@ == graph_missing(graph_id@))
                    && forall|id: Seq<char>| final(self).graph(id) == old(self).graph(id),
                Some(g) => if exists|i: int| 0 <= i < g.nodes@.len() && (#[trigger] g.nodes@[i]).id@ == node.id@ {
                    let i = choose|i: int| 0 <= i < g.nodes@.len() && (#[trigger] g.nodes@[i]).id@ == node.id@
                        && forall|j: int| 0 <= j < i ==> (#[trigger] g.nodes@[j]).id@ != node.id@;
                    (r matches Ok(u) && u.graph_id@ == graph_id@ && u.update_type == GraphUpdateType::NodeUpdated
                        && u.graph is None && u.edge is None && (u.node matches Some(n) && n.same_as(&node)))
                    && (final(self).graph(graph_id@) matches Some(h) && h.nodes@ == g.nodes@.update(i, node)
                        && h.edges@ == g.edges@ && h.id == g.id && h.name == g.name && h.graph_type == g.graph_type
                        && h.properties == g.properties)
                    && forall|id: Seq<char>| id != graph_id@ ==> final(self).graph(id) == old(self).graph(id)
                } else {
                    (r matches Err(Error::TerminalError(m)) && m@ == "Node "@ + node.id@ + " not found in graph "@ + graph_id@)
                    && forall|id: Seq<char>| final(self).graph(id) == old(self).graph(id)
                },
            },
    {
        let pos = match self.graphs.get(graph_id) {
            None => return Err(Error::TerminalError(concat3("Graph ", graph_id, " not found"))),
            Some(g) => {
                let mut i: usize = 0;
                let mut found: Option<usize> = None;
                while i < g.nodes.len() && found.is_none()
                    invariant
                        i <= g.nodes@.len(),
                        found is None ==> forall|j: int| 0 <= j < i ==> (#[trigger] g.nodes@[j]).id@ != node.id@,
                        found matches Some(k) ==> k < g.nodes@.len() && g.nodes@[k as int].id@ == node.id@
                            && forall|j: int| 0 <= j < k ==> (#[trigger] g.nodes@[j]).id@ != node.id@,
                    decreases g.nodes@.len() - i + if found is None { 1int } else { 0int },
                {
                    if str_eq(g.nodes[i].id.as_str(), node.id.as_str()) {
                        found = Some(i);
                    } else {
                        i = i + 1;
                    }
                }
                found
            },
        };
        let ghost g0 = self.graph(graph_id@)->0;
        match pos {
            None => {
                let mut m = concat2("Node ", node.id.as_str());
                m.append(" not found in graph ");
                m.append(graph_id);
                Err(Error::TerminalError(m))
            },
            Some(k) => {
                proof {
                    let c = choose|c: int| 0 <= c < g0.nodes@.len() && (#[trigger] g0.nodes@[c]).id@ == node.id@
                        && forall|j: int| 0 <= j < c ==> (#[trigger] g0.nodes@[j]).id@ != node.id@;
                    assert(g0.nodes@[k as int].id@ == node.id@);
                    if c < k { assert(g0.nodes@[c].id@ != node.id@); }
                    if c > k { assert(g0.nodes@[k as int].id@ != node.id@); }
                    assert(c == k);
                }
                match self.graphs.remove(graph_id) {
                    None => Err(Error::TerminalError(concat3("Graph ", graph_id, " not found"))),
                    Some(g) => {
                        let copy = node.clone();
                        let mut g = g;
                        g.nodes.set(k, node);
                        let _ = self.graphs.insert(owned(graph_id), g);
                        Ok(GraphUpdate { graph_id: owned(graph_id), update_type: GraphUpdateType::NodeUpdated, graph: None, node: Some(copy), edge: None })
                    },
                }
            },
        }
    }
}

} // verus!
