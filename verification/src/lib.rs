//! A library that renders a client-defined graph (nodes, edges, optional
//! subgraphs, and their visual attributes) into text in the DOT language
//! understood by Graphviz.
//!
//! A client describes its graph through the [`Labeller`] and [`GraphWalk`]
//! traits; [`render`] and [`render_opts`] turn such a graph into DOT text.
//! The serialisation itself runs over an owned snapshot of the graph
//! ([`ResolvedGraph`]), and its output is pinned down, byte for byte, by the
//! spec function [`rendered_document`].

pub mod arrow;
pub mod concat;
pub mod errors;
pub mod fill;
pub mod graph_walk;
pub mod label;
pub mod id;
pub mod kind;
pub mod render;
pub mod side;
pub mod style;

pub use arrow::{Arrow, Shape};
pub use errors::Error;
pub use fill::Fill;
pub use graph_walk::GraphWalk;
pub use label::{escape_html, Labeller, Text};
pub use id::Id;
pub use kind::Kind;
pub use render::{render, render_edges, render_nodes, render_opts, render_resolved, resolve_graph, RenderOption, ResolvedEdge, ResolvedGraph, ResolvedNode, ResolvedSubgraph};
pub use side::Side;
pub use style::Style;
