use vstd::prelude::*;

verus! {

/// GraphWalk is an abstraction over a directed graph = (nodes,edges)
/// made up of node handles `N` and edge handles `E`, where each `E`
/// can be mapped to its source and target nodes.
///
/// The `nodes`, `edges`, `subgraphs` and `subgraph_nodes` methods each
/// return an owned snapshot sequence; the caller does not assume that the
/// sequence is backed by stable storage beyond the call.
pub trait GraphWalk {
    type Node: Clone;

    type Edge: Clone;

    type Subgraph: Clone;

    /// Returns all the nodes in this graph.
    fn nodes(&self) -> Vec<Self::Node>;

    /// Returns all of the edges in this graph.
    fn edges(&self) -> Vec<Self::Edge>;

    /// The source node for `edge`.
    fn source(&self, edge: &Self::Edge) -> Self::Node;

    /// The target node for `edge`.
    fn target(&self, edge: &Self::Edge) -> Self::Node;

    /// Returns all the subgraphs in this graph; none by default.
    fn subgraphs(&self) -> Vec<Self::Subgraph> {
        Vec::new()
    }

    /// Returns the nodes that belong to subgraph `s`; none by default.
    fn subgraph_nodes(&self, _s: &Self::Subgraph) -> Vec<Self::Node> {
        Vec::new()
    }
}

} // verus!
