use vstd::prelude::*;

verus! {

/// Graph kind determines if `digraph` or `graph` is used as keyword
/// for the graph, and with it the edge operator (`->` or `--`).
#[derive(Copy, Clone, PartialEq, Eq, Structural, Debug)]
pub enum Kind {
    Digraph,
    Graph,
}

/// The keyword that opens a graph of this kind.
pub open spec fn kind_keyword(k: Kind) -> Seq<char> {
    match k {
        Kind::Digraph => "digraph"@,
        Kind::Graph => "graph"@,
    }
}

/// The edge operator joining the two endpoints of an edge of this kind.
pub open spec fn kind_edgeop(k: Kind) -> Seq<char> {
    match k {
        Kind::Digraph => "->"@,
        Kind::Graph => "--"@,
    }
}

impl Kind {
    /// The keyword for this graph kind.
    pub fn keyword(self) -> (r: &'static str)
        ensures
            r@ == kind_keyword(self),
    {
        match self {
            Kind::Digraph => "digraph",
            Kind::Graph => "graph",
        }
    }

    /// The edgeop syntax to use for this graph kind.
    pub fn edgeop(self) -> (r: &'static str)
        ensures
            r@ == kind_edgeop(self),
    {
        match self {
            Kind::Digraph => "->",
            Kind::Graph => "--",
        }
    }
}

} // verus!
