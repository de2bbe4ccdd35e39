use dot::label::Text;
use dot::{
    Arrow, Id, Kind, ResolvedEdge, ResolvedGraph, ResolvedNode, ResolvedSubgraph, Style,
};

#[test]
fn render_resolved_graph_directly() {
    let g = ResolvedGraph {
        kind: Kind::Digraph,
        id: Id::new("g").unwrap(),
        subgraphs: vec![],
        nodes: vec![ResolvedNode {
            id: Id::new("a").unwrap(),
            label: Text::label("a label"),
            style: Style::Solid,
            color: None,
            shape: Some(Text::label("box")),
        }],
        edges: vec![ResolvedEdge {
            source: Id::new("a").unwrap(),
            target: Id::new("a").unwrap(),
            label: Text::label(""),
            style: Style::Unstyled,
            color: Some(Text::label("red")),
            start_arrow: Arrow::default(),
            end_arrow: Arrow::default(),
        }],
    };
    let out = dot::render_resolved(&g, &[]);
    assert_eq!(
        out,
        "digraph g {\n    a[label=\"a label\"][style=\"solid\"][shape=\"box\"];\n    a -> a[label=\"\"][color=\"red\"];\n}\n"
    );
}

#[test]
fn subgraph_attribute_lines() {
    let g = ResolvedGraph {
        kind: Kind::Digraph,
        id: Id::new("g").unwrap(),
        subgraphs: vec![ResolvedSubgraph {
            id: Some(Id::new("cluster_a").unwrap()),
            label: Text::label("L"),
            style: Style::Filled,
            color: Some(Text::label("blue")),
            shape: Some(Text::label("box")),
            nodes: vec![Id::new("a").unwrap()],
        }],
        nodes: vec![],
        edges: vec![],
    };
    let out = dot::render_resolved(&g, &[]);
    assert_eq!(
        out,
        "digraph g {\n    subgraph cluster_a {\n        label=\"L\";\n        style=\"filled\";\n        color=\"blue\";\n        shape=\"\"box\"\";\n\n        a;\n    }\n\n}\n"
    );
}

#[test]
fn anonymous_subgraph_has_no_identifier() {
    let g = ResolvedGraph {
        kind: Kind::Digraph,
        id: Id::new("g").unwrap(),
        subgraphs: vec![ResolvedSubgraph {
            id: None,
            label: Text::label(""),
            style: Style::Unstyled,
            color: None,
            shape: None,
            nodes: vec![],
        }],
        nodes: vec![],
        edges: vec![],
    };
    let out = dot::render_resolved(&g, &[]);
    assert_eq!(
        out,
        "digraph g {\n    subgraph {\n        label=\"\";\n\n    }\n\n}\n"
    );
}
