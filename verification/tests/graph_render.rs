use dot::label::Text::{EscStr, HtmlStr, LabelStr};

/// each node is an index in a vector in the graph.
type Node = usize;

#[derive(Clone)]
struct Edge {
    from: usize,
    to: usize,
    label: &'static str,
    style: dot::Style,
    start_arrow: dot::Arrow,
    end_arrow: dot::Arrow,
    color: Option<&'static str>,
}

type Subgraph = usize;

fn edge(
    from: usize,
    to: usize,
    label: &'static str,
    style: dot::Style,
    color: Option<&'static str>,
) -> Edge {
    Edge {
        from,
        to,
        label,
        style,
        start_arrow: dot::Arrow::default(),
        end_arrow: dot::Arrow::default(),
        color,
    }
}

fn edge_with_arrows(
    from: usize,
    to: usize,
    label: &'static str,
    style: dot::Style,
    start_arrow: dot::Arrow,
    end_arrow: dot::Arrow,
    color: Option<&'static str>,
) -> Edge {
    Edge {
        from,
        to,
        label,
        style,
        start_arrow,
        end_arrow,
        color,
    }
}

struct LabelledGraph {
    /// The name for this graph. Used for labeling generated `digraph`.
    name: &'static str,

    /// Each node is an index into `node_labels`; these labels are
    /// used as the label text for each node. (The node *names*,
    /// which are unique identifiers, are derived from their index
    /// in this array.)
    ///
    /// If a node maps to None here, then just use its name as its
    /// text.
    node_labels: Vec<Option<&'static str>>,

    node_styles: Vec<dot::Style>,

    /// Each edge relates a from-index to a to-index along with a
    /// label; `edges` collects them.
    edges: Vec<Edge>,

    subgraphs: Vec<Vec<Node>>,
}

// A simple wrapper around LabelledGraph that forces the labels to
// be emitted as EscStr.
struct LabelledGraphWithEscStrs {
    graph: LabelledGraph,
}

enum NodeLabels<L> {
    AllNodesLabelled(Vec<L>),
    UnlabelledNodes(usize),
    SomeNodesLabelled(Vec<Option<L>>),
}

type Trivial = NodeLabels<&'static str>;

impl NodeLabels<&'static str> {
    fn to_opt_strs(self) -> Vec<Option<&'static str>> {
        match self {
            Self::UnlabelledNodes(len) => vec![None; len],
            Self::AllNodesLabelled(lbls) => lbls.into_iter().map(Some).collect(),
            Self::SomeNodesLabelled(lbls) => lbls,
        }
    }

    fn len(&self) -> usize {
        match self {
            &Self::UnlabelledNodes(len) => len,
            Self::AllNodesLabelled(lbls) => lbls.len(),
            Self::SomeNodesLabelled(lbls) => lbls.len(),
        }
    }
}

impl LabelledGraph {
    fn new(
        name: &'static str,
        node_labels: Trivial,
        edges: Vec<Edge>,
        subgraphs: Vec<Vec<Node>>,
        node_styles: Option<Vec<dot::Style>>,
    ) -> Self {
        let count = node_labels.len();

        Self {
            name,
            node_labels: node_labels.to_opt_strs(),
            edges,
            node_styles: match node_styles {
                Some(nodes) => nodes,
                None => vec![dot::Style::Unstyled; count],
            },
            subgraphs,
        }
    }
}

impl LabelledGraphWithEscStrs {
    fn new(name: &'static str, node_labels: Trivial, edges: Vec<Edge>) -> Self {
        Self {
            graph: LabelledGraph::new(name, node_labels, edges, vec![], None),
        }
    }
}

fn id_name(n: &Node) -> Result<dot::Id, dot::Error> {
    dot::Id::new(&format!("N{}", *n))
}

impl dot::Labeller for LabelledGraph {
    type Node = Node;
    type Edge = Edge;
    type Subgraph = Subgraph;

    fn graph_id(&self) -> Result<dot::Id, dot::Error> {
        dot::Id::new(self.name)
    }

    fn node_id(&self, n: &Node) -> Result<dot::Id, dot::Error> {
        id_name(n)
    }

    fn node_label(&self, n: &Node) -> Result<dot::Text, dot::Error> {
        let label = match self.node_labels[*n] {
            Some(l) => LabelStr(l.to_string()),
            None => LabelStr(id_name(n)?.as_slice().to_string()),
        };

        Ok(label)
    }

    fn edge_start_arrow(&self, e: &Edge) -> dot::Arrow {
        e.start_arrow.clone()
    }

    fn edge_end_arrow(&self, e: &Edge) -> dot::Arrow {
        e.end_arrow.clone()
    }

    fn edge_label(&self, e: &Edge) -> dot::Text {
        LabelStr(e.label.to_string())
    }

    fn node_style(&self, n: &Node) -> dot::Style {
        self.node_styles[*n]
    }

    fn edge_style(&self, e: &Edge) -> dot::Style {
        e.style
    }

    fn edge_color(&self, e: &Edge) -> Option<dot::Text> {
        e.color.map(|c| LabelStr(c.to_string()))
    }

    fn subgraph_id(&self, s: &Subgraph) -> Option<dot::Id> {
        dot::Id::new(&format!("cluster_{}", s)).ok()
    }
}

impl dot::Labeller for LabelledGraphWithEscStrs {
    type Node = Node;
    type Edge = Edge;
    type Subgraph = ();

    fn graph_id(&self) -> Result<dot::Id, dot::Error> {
        self.graph.graph_id()
    }

    fn node_id(&self, n: &Node) -> Result<dot::Id, dot::Error> {
        self.graph.node_id(n)
    }

    fn node_label(&self, n: &Node) -> Result<dot::Text, dot::Error> {
        let label = match self.graph.node_label(n)? {
            LabelStr(s) | EscStr(s) | HtmlStr(s) => EscStr(s),
        };

        Ok(label)
    }

    fn edge_label(&self, e: &Edge) -> dot::Text {
        match self.graph.edge_label(e) {
            LabelStr(s) | EscStr(s) | HtmlStr(s) => EscStr(s),
        }
    }
}

impl dot::GraphWalk for LabelledGraph {
    type Node = Node;
    type Edge = Edge;
    type Subgraph = Subgraph;

    fn nodes(&self) -> Vec<Node> {
        (0..self.node_labels.len()).collect()
    }

    fn edges(&self) -> Vec<Edge> {
        self.edges.clone()
    }

    fn source(&self, edge: &Edge) -> Node {
        edge.from
    }

    fn target(&self, edge: &Edge) -> Node {
        edge.to
    }

    fn subgraphs(&self) -> Vec<Subgraph> {
        (0..self.subgraphs.len()).collect()
    }

    fn subgraph_nodes(&self, s: &Subgraph) -> Vec<Node> {
        self.subgraphs[*s].clone()
    }
}

impl dot::GraphWalk for LabelledGraphWithEscStrs {
    type Node = Node;
    type Edge = Edge;
    type Subgraph = ();

    fn nodes(&self) -> Vec<Node> {
        self.graph.nodes()
    }

    fn edges(&self) -> Vec<Edge> {
        self.graph.edges()
    }

    fn source(&self, edge: &Edge) -> Node {
        edge.from
    }

    fn target(&self, edge: &Edge) -> Node {
        edge.to
    }
}

fn test_input(g: LabelledGraph) -> Result<String, dot::Error> {
    dot::render(&g)
}

// All of the tests use raw-strings as the format for the expected outputs,
// so that you can cut-and-paste the content into a .dot file yourself to
// see what the graphviz visualizer would produce.

#[test]
fn empty_graph() {
    let labels: Trivial = NodeLabels::UnlabelledNodes(0);
    let r = test_input(LabelledGraph::new(
        "empty_graph",
        labels,
        vec![],
        vec![],
        None,
    ));

    assert_eq!(
        r.unwrap(),
        r#"digraph empty_graph {
}
"#
    );
}

#[test]
fn single_node() {
    let labels: Trivial = NodeLabels::UnlabelledNodes(1);
    let r = test_input(LabelledGraph::new(
        "single_node",
        labels,
        vec![],
        vec![],
        None,
    ));

    assert_eq!(
        r.unwrap(),
        r#"digraph single_node {
    N0[label="N0"];
}
"#
    );
}

#[test]
fn single_node_with_style() {
    let labels: Trivial = NodeLabels::UnlabelledNodes(1);
    let styles = Some(vec![dot::Style::Dashed]);
    let r = test_input(LabelledGraph::new(
        "single_node",
        labels,
        vec![],
        vec![],
        styles,
    ));

    assert_eq!(
        r.unwrap(),
        r#"digraph single_node {
    N0[label="N0"][style="dashed"];
}
"#
    );
}

#[test]
fn single_edge() {
    let labels: Trivial = NodeLabels::UnlabelledNodes(2);
    let result = test_input(LabelledGraph::new(
        "single_edge",
        labels,
        vec![edge(0, 1, "E", dot::Style::Unstyled, None)],
        vec![],
        None,
    ));

    assert_eq!(
        result.unwrap(),
        r#"digraph single_edge {
    N0[label="N0"];
    N1[label="N1"];
    N0 -> N1[label="E"];
}
"#
    );
}

#[test]
fn single_edge_with_style() {
    let labels: Trivial = NodeLabels::UnlabelledNodes(2);
    let result = test_input(LabelledGraph::new(
        "single_edge",
        labels,
        vec![edge(0, 1, "E", dot::Style::Bold, Some("red"))],
        vec![],
        None,
    ));

    assert_eq!(
        result.unwrap(),
        r#"digraph single_edge {
    N0[label="N0"];
    N1[label="N1"];
    N0 -> N1[label="E"][style="bold"][color="red"];
}
"#
    );
}

#[test]
fn test_some_labelled() {
    let labels: Trivial = NodeLabels::SomeNodesLabelled(vec![Some("A"), None]);
    let styles = Some(vec![dot::Style::Unstyled, dot::Style::Dotted]);
    let result = test_input(LabelledGraph::new(
        "test_some_labelled",
        labels,
        vec![edge(0, 1, "A-1", dot::Style::Unstyled, None)],
        vec![],
        styles,
    ));

    assert_eq!(
        result.unwrap(),
        r#"digraph test_some_labelled {
    N0[label="A"];
    N1[label="N1"][style="dotted"];
    N0 -> N1[label="A-1"];
}
"#
    );
}

#[test]
fn single_cyclic_node() {
    let labels: Trivial = NodeLabels::UnlabelledNodes(1);
    let r = test_input(LabelledGraph::new(
        "single_cyclic_node",
        labels,
        vec![edge(0, 0, "E", dot::Style::Unstyled, None)],
        vec![],
        None,
    ));

    assert_eq!(
        r.unwrap(),
        r#"digraph single_cyclic_node {
    N0[label="N0"];
    N0 -> N0[label="E"];
}
"#
    );
}

#[test]
fn hasse_diagram() {
    let labels = NodeLabels::AllNodesLabelled(vec!["{x,y}", "{x}", "{y}", "{}"]);
    let r = test_input(LabelledGraph::new(
        "hasse_diagram",
        labels,
        vec![
            edge(0, 1, "", dot::Style::Unstyled, Some("green")),
            edge(0, 2, "", dot::Style::Unstyled, Some("blue")),
            edge(1, 3, "", dot::Style::Unstyled, Some("red")),
            edge(2, 3, "", dot::Style::Unstyled, Some("black")),
        ],
        vec![],
        None,
    ));

    assert_eq!(
        r.unwrap(),
        r#"digraph hasse_diagram {
    N0[label="{x,y}"];
    N1[label="{x}"];
    N2[label="{y}"];
    N3[label="{}"];
    N0 -> N1[label=""][color="green"];
    N0 -> N2[label=""][color="blue"];
    N1 -> N3[label=""][color="red"];
    N2 -> N3[label=""][color="black"];
}
"#
    );
}

#[test]
fn left_aligned_text() {
    let labels = NodeLabels::AllNodesLabelled(vec![
        "if test {\
       \\l    branch1\
       \\l} else {\
       \\l    branch2\
       \\l}\
       \\lafterward\
       \\l",
        "branch1",
        "branch2",
        "afterward",
    ]);

    let g = LabelledGraphWithEscStrs::new(
        "syntax_tree",
        labels,
        vec![
            edge(0, 1, "then", dot::Style::Unstyled, None),
            edge(0, 2, "else", dot::Style::Unstyled, None),
            edge(1, 3, ";", dot::Style::Unstyled, None),
            edge(2, 3, ";", dot::Style::Unstyled, None),
        ],
    );

    let r = dot::render(&g).unwrap();

    assert_eq!(
        r,
        r#"digraph syntax_tree {
    N0[label="if test {\l    branch1\l} else {\l    branch2\l}\lafterward\l"];
    N1[label="branch1"];
    N2[label="branch2"];
    N3[label="afterward"];
    N0 -> N1[label="then"];
    N0 -> N2[label="else"];
    N1 -> N3[label=";"];
    N2 -> N3[label=";"];
}
"#
    );
}

#[test]
fn simple_id_construction() {
    let id1 = dot::Id::new("hello");

    match id1 {
        Ok(_) => {}
        Err(..) => panic!("'hello' is not a valid value for id anymore"),
    }
}

#[test]
fn test_some_arrow() {
    let labels: Trivial = NodeLabels::SomeNodesLabelled(vec![Some("A"), None]);
    let styles = Some(vec![dot::Style::Unstyled, dot::Style::Dotted]);
    let start = dot::Arrow::default();
    let end = dot::Arrow::from_arrow(dot::arrow::Shape::crow());
    let result = test_input(LabelledGraph::new(
        "test_some_labelled",
        labels,
        vec![edge_with_arrows(
            0,
            1,
            "A-1",
            dot::Style::Unstyled,
            start,
            end,
            None,
        )],
        vec![],
        styles,
    ));
    assert_eq!(
        result.unwrap(),
        r#"digraph test_some_labelled {
    N0[label="A"];
    N1[label="N1"][style="dotted"];
    N0 -> N1[label="A-1"][arrowhead="crow"];
}
"#
    );
}

#[test]
fn test_some_arrows() {
    let labels: Trivial = NodeLabels::SomeNodesLabelled(vec![Some("A"), None]);
    let styles = Some(vec![dot::Style::Unstyled, dot::Style::Dotted]);
    let start = dot::Arrow::from_arrow(dot::arrow::Shape::tee());
    let end = dot::Arrow::from_arrow(dot::arrow::Shape::Crow(dot::Side::Left));
    let result = test_input(LabelledGraph::new(
        "test_some_labelled",
        labels,
        vec![edge_with_arrows(
            0,
            1,
            "A-1",
            dot::Style::Unstyled,
            start,
            end,
            None,
        )],
        vec![],
        styles,
    ));

    assert_eq!(
        result.unwrap(),
        r#"digraph test_some_labelled {
    N0[label="A"];
    N1[label="N1"][style="dotted"];
    N0 -> N1[label="A-1"][arrowhead="lcrow" dir="both" arrowtail="tee"];
}
"#
    );
}

#[test]
fn badly_formatted_id() {
    let id2 = dot::Id::new("Weird { struct : ure } !!!");

    if id2.is_ok() {
        panic!("graphviz id suddenly allows spaces, brackets and stuff");
    }
}

#[test]
fn subgraph() {
    let labels = NodeLabels::AllNodesLabelled(vec!["{x,y}", "{x}", "{y}", "{}"]);
    let r = test_input(LabelledGraph::new(
        "di",
        labels,
        vec![
            edge(0, 1, "", dot::Style::Unstyled, None),
            edge(0, 2, "", dot::Style::Unstyled, None),
            edge(1, 3, "", dot::Style::Unstyled, None),
            edge(2, 3, "", dot::Style::Unstyled, None),
        ],
        vec![vec![0, 1], vec![2, 3]],
        None,
    ));
    assert_eq!(
        r.unwrap(),
        r#"digraph di {
    subgraph cluster_0 {
        label="";

        N0;
        N1;
    }

    subgraph cluster_1 {
        label="";

        N2;
        N3;
    }

    N0[label="{x,y}"];
    N1[label="{x}"];
    N2[label="{y}"];
    N3[label="{}"];
    N0 -> N1[label=""];
    N0 -> N2[label=""];
    N1 -> N3[label=""];
    N2 -> N3[label=""];
}
"#
    );
}

#[test]
fn suppress_all_decorations() {
    let decorated = LabelledGraph::new(
        "g",
        NodeLabels::AllNodesLabelled(vec!["alpha", "beta"]),
        vec![edge_with_arrows(
            0,
            1,
            "edge label",
            dot::Style::Bold,
            dot::Arrow::normal(),
            dot::Arrow::none(),
            Some("red"),
        )],
        vec![vec![0, 1]],
        Some(vec![dot::Style::Dashed, dot::Style::Dotted]),
    );
    let undecorated = LabelledGraph::new(
        "g",
        NodeLabels::UnlabelledNodes(2),
        vec![edge(0, 1, "", dot::Style::Unstyled, None)],
        vec![vec![0, 1]],
        None,
    );
    let all_off = vec![
        dot::RenderOption::NoNodeLabels,
        dot::RenderOption::NoNodeStyles,
        dot::RenderOption::NoNodeColors,
        dot::RenderOption::NoEdgeLabels,
        dot::RenderOption::NoEdgeStyles,
        dot::RenderOption::NoEdgeColors,
        dot::RenderOption::NoArrows,
    ];
    let decorated_out = dot::render_opts(&decorated, &all_off).unwrap();
    let undecorated_out = dot::render_opts(&undecorated, &all_off).unwrap();
    assert_eq!(decorated_out, undecorated_out);
    assert_eq!(
        decorated_out,
        r#"digraph g {
    subgraph cluster_0 {

        N0;
        N1;
    }

    N0;
    N1;
    N0 -> N1;
}
"#
    );
}

struct Undirected;

impl dot::Labeller for Undirected {
    type Node = usize;
    type Edge = (usize, usize);
    type Subgraph = usize;

    fn graph_id(&self) -> Result<dot::Id, dot::Error> {
        dot::Id::new("u")
    }

    fn node_id(&self, n: &usize) -> Result<dot::Id, dot::Error> {
        dot::Id::new(&format!("N{}", n))
    }

    fn kind(&self) -> dot::Kind {
        dot::Kind::Graph
    }
}

impl dot::GraphWalk for Undirected {
    type Node = usize;
    type Edge = (usize, usize);
    type Subgraph = usize;

    fn nodes(&self) -> Vec<usize> {
        vec![0, 1]
    }

    fn edges(&self) -> Vec<(usize, usize)> {
        vec![(0, 1)]
    }

    fn source(&self, e: &(usize, usize)) -> usize {
        e.0
    }

    fn target(&self, e: &(usize, usize)) -> usize {
        e.1
    }
}

#[test]
fn undirected_graph_keyword_and_edgeop() {
    let r = dot::render(&Undirected).unwrap();
    assert_eq!(
        r,
        r#"graph u {
    N0[label="N0"];
    N1[label="N1"];
    N0 -- N1[label=""];
}
"#
    );
}

#[test]
fn global_attributes_block() {
    let labels: Trivial = NodeLabels::UnlabelledNodes(1);
    let g = LabelledGraph::new("g", labels, vec![], vec![], None);
    let opts = vec![
        dot::RenderOption::Fontname("Helvetica".to_string()),
        dot::RenderOption::DarkTheme,
    ];
    let r = dot::render_opts(&g, &opts).unwrap();
    assert_eq!(
        r,
        r#"digraph g {
    graph[fontname="Helvetica" bgcolor="black" fontcolor="white"];
    node[fontname="Helvetica" color="white" fontcolor="white"];
    edge[fontname="Helvetica" color="white" fontcolor="white"];
    N0[label="N0"];
}
"#
    );
}

#[test]
fn invalid_graph_id_aborts_render() {
    let labels: Trivial = NodeLabels::UnlabelledNodes(1);
    let g = LabelledGraph::new("bad name", labels, vec![], vec![], None);
    let r = test_input(g);
    assert!(matches!(r, Err(dot::Error::InvalidId)));
}

#[test]
fn explicit_no_arrow_still_renders_bracket() {
    let labels: Trivial = NodeLabels::UnlabelledNodes(2);
    let result = test_input(LabelledGraph::new(
        "g",
        labels,
        vec![edge_with_arrows(
            0,
            1,
            "",
            dot::Style::Unstyled,
            dot::Arrow::default(),
            dot::Arrow::none(),
            None,
        )],
        vec![],
        None,
    ));
    assert_eq!(
        result.unwrap(),
        r#"digraph g {
    N0[label="N0"];
    N1[label="N1"];
    N0 -> N1[label=""][arrowhead="none"];
}
"#
    );
}
