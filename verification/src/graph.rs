//! The traffic graph: one node per hardware address seen, one edge per
//! aggregated flow, labelled with the network protocol's name. Nodes are
//! deduplicated by name; edges are kept in the order their flows appear.

use crate::state::{EntryView, SonarState};
use crate::text::str_eq;
use vstd::prelude::*;

verus! {

/// A node of the traffic graph: one hardware address.
#[derive(Debug, Clone)]
pub struct Node {
    pub name: String,
}

/// One edge of the traffic graph: traffic from `source` to `target`,
/// labelled with the network protocol observed.
#[derive(Debug, Clone)]
pub struct Edge {
    pub source: String,
    pub target: String,
    pub label: String,
}

/// Mathematical model of `Edge`.
pub struct EdgeView {
    pub source: Seq<char>,
    pub target: Seq<char>,
    pub label: Seq<char>,
}

impl View for Edge {
    type V = EdgeView;

    open spec fn view(&self) -> EdgeView {
        EdgeView { source: self.source@, target: self.target@, label: self.label@ }
    }
}

/// Mathematical model of a graph: node names and edges.
pub struct GraphView {
    pub nodes: Seq<Seq<char>>,
    pub edges: Seq<EdgeView>,
}

/// The finished graph, ready to hand to a rendering consumer.
#[derive(Debug, Clone)]
pub struct GraphData {
    pub nodes: Vec<Node>,
    pub edges: Vec<Edge>,
}

impl View for GraphData {
    type V = GraphView;

    open spec fn view(&self) -> GraphView {
        GraphView {
            nodes: Seq::new(self.nodes@.len(), |i: int| self.nodes@[i].name@),
            edges: Seq::new(self.edges@.len(), |i: int| self.edges@[i]@),
        }
    }
}

/// Whether a graph already holds a node of this name.
pub open spec fn spec_has_node(nodes: Seq<Seq<char>>, name: Seq<char>) -> bool {
    exists|i: int| 0 <= i < nodes.len() && nodes[i] == name
}

/// A node list after adding one name: unchanged when the name is already
/// there, extended by it otherwise.
pub open spec fn spec_add_node(nodes: Seq<Seq<char>>, name: Seq<char>) -> Seq<Seq<char>> {
    if spec_has_node(nodes, name) {
        nodes
    } else {
        nodes.push(name)
    }
}

/// A graph after adding one edge: both endpoints appear as nodes, and the
/// edge is appended.
pub open spec fn spec_add_edge(
    g: GraphView,
    source: Seq<char>,
    target: Seq<char>,
    label: Seq<char>,
) -> GraphView {
    GraphView {
        nodes: spec_add_node(spec_add_node(g.nodes, source), target),
        edges: g.edges.push(EdgeView { source: source, target: target, label: label }),
    }
}

/// The graph built from the aggregated flows: one edge per entry, from the
/// entry's source to its destination address, labelled with its network
/// protocol; built left to right over the first `k` entries.
pub open spec fn spec_graph_of_prefix(s: Seq<EntryView>, k: int) -> GraphView
    decreases k,
{
    if k <= 0 {
        GraphView { nodes: Seq::empty(), edges: Seq::empty() }
    } else {
        spec_add_edge(
            spec_graph_of_prefix(s, k - 1),
            s[k - 1].representative.mac_address_source,
            s[k - 1].representative.mac_address_destination,
            s[k - 1].representative.l_3_protocol,
        )
    }
}

/// Collects the traffic graph step by step: nodes deduplicated by name,
/// edges in insertion order.
pub struct GraphBuilder {
    nodes: Vec<Node>,
    edges: Vec<Edge>,
}

impl View for GraphBuilder {
    type V = GraphView;

    closed spec fn view(&self) -> GraphView {
        GraphView {
            nodes: Seq::new(self.nodes@.len(), |i: int| self.nodes@[i].name@),
            edges: Seq::new(self.edges@.len(), |i: int| self.edges@[i]@),
        }
    }
}

impl GraphBuilder {
    /// An empty graph.
    pub fn new() -> (r: Self)
        ensures
            r@.nodes == Seq::<Seq<char>>::empty(),
            r@.edges == Seq::<EdgeView>::empty(),
    {
        let r = GraphBuilder { nodes: Vec::new(), edges: Vec::new() };
        proof {
            assert(r@.nodes =~= Seq::<Seq<char>>::empty());
            assert(r@.edges =~= Seq::<EdgeView>::empty());
        }
        r
    }

    fn has_node(&self, name: &String) -> (r: bool)
        ensures
            r == spec_has_node(self@.nodes, name@),
    {
        let n = self.nodes.len();
        let mut i: usize = 0;
        while i < n
            invariant
                n == self.nodes@.len(),
                i <= n,
                forall|j: int| 0 <= j < i ==> self@.nodes[j] != name@,
            decreases n - i,
        {
            if str_eq(self.nodes[i].name.as_str(), name.as_str()) {
                proof {
                    assert(self@.nodes[i as int] == name@);
                }
                return true;
            }
            i = i + 1;
        }
        false
    }

    /// Adds a node for this hardware address, unless one is already there.
    pub fn add_node(&mut self, mac_address: String)
        ensures
            final(self)@.nodes == spec_add_node(old(self)@.nodes, mac_address@),
            final(self)@.edges == old(self)@.edges,
    {
        if !self.has_node(&mac_address) {
            self.nodes.push(Node { name: mac_address });
            proof {
                assert(self@.nodes =~= old(self)@.nodes.push(mac_address@));
                assert(self@.edges =~= old(self)@.edges);
            }
        }
    }

    /// Adds an edge from `source_mac` to `target_mac` with the protocol
    /// label, adding nodes for both endpoints as needed.
    pub fn add_edge(&mut self, source_mac: String, target_mac: String, label: String)
        ensures
            final(self)@ == spec_add_edge(old(self)@, source_mac@, target_mac@, label@),
    {
        let ghost g0 = self@;
        let source_copy = source_mac.clone();
        let target_copy = target_mac.clone();
        self.add_node(source_copy);
        self.add_node(target_copy);
        self.edges.push(Edge { source: source_mac, target: target_mac, label: label });
        proof {
            assert(self@.nodes =~= spec_add_node(spec_add_node(g0.nodes, source_mac@), target_mac@));
            assert(self@.edges =~= g0.edges.push(
                EdgeView { source: source_mac@, target: target_mac@, label: label@ },
            ));
        }
    }

    /// An independent copy of the collected graph.
    pub fn build_graph_data(&self) -> (r: GraphData)
        ensures
            r@ == self@,
    {
        let n_nodes = self.nodes.len();
        let mut nodes: Vec<Node> = Vec::new();
        let mut i: usize = 0;
        while i < n_nodes
            invariant
                n_nodes == self.nodes@.len(),
                i <= n_nodes,
                nodes@.len() == i,
                forall|j: int| 0 <= j < i ==> nodes@[j].name@ == self@.nodes[j],
            decreases n_nodes - i,
        {
            nodes.push(Node { name: self.nodes[i].name.clone() });
            i = i + 1;
        }
        let n_edges = self.edges.len();
        let mut edges: Vec<Edge> = Vec::new();
        let mut k: usize = 0;
        while k < n_edges
            invariant
                n_edges == self.edges@.len(),
                k <= n_edges,
                edges@.len() == k,
                forall|j: int| 0 <= j < k ==> edges@[j]@ == self@.edges[j],
            decreases n_edges - k,
        {
            edges.push(
                Edge {
                    source: self.edges[k].source.clone(),
                    target: self.edges[k].target.clone(),
                    label: self.edges[k].label.clone(),
                },
            );
            k = k + 1;
        }
        let r = GraphData { nodes, edges };
        proof {
            assert(r@.nodes =~= self@.nodes);
            assert(r@.edges =~= self@.edges);
        }
        r
    }
}

/// Builds the traffic graph of an aggregated summary: one edge per flow,
/// from its source to its destination hardware address, labelled with its
/// network protocol name.
pub fn build_graph(state: &SonarState) -> (r: GraphData)
    ensures
        r@ == spec_graph_of_prefix(state@, state@.len() as int),
{
    let n = state.len();
    let mut builder = GraphBuilder::new();
    let mut i: usize = 0;
    while i < n
        invariant
            n == state@.len(),
            i <= n,
            builder@ == spec_graph_of_prefix(state@, i as int),
        decreases n - i,
    {
        let entry = state.get(i);
        builder.add_edge(
            entry.representative.mac_address_source.clone(),
            entry.representative.mac_address_destination.clone(),
            entry.representative.l_3_protocol.clone(),
        );
        i = i + 1;
    }
    builder.build_graph_data()
}

} // verus!
