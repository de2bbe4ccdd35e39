use vstd::prelude::*;

use crate::arrow::{arrow_is_default, rendered_arrow, Arrow};
use crate::concat::{concat_map, lemma_concat_map_take_succ};
use crate::errors::Error;
use crate::graph_walk::GraphWalk;
use crate::id::Id;
use crate::kind::{kind_edgeop, kind_keyword, Kind};
use crate::label::{rendered_text, Labeller, Text};
use crate::style::{style_name, Style};

verus! {

/// Options controlling the rendered output: each suppresses one family of
/// attributes, injects a global font, or switches to a dark background.
#[derive(Clone, PartialEq, Eq, Debug)]
pub enum RenderOption {
    NoEdgeLabels,
    NoNodeLabels,
    NoEdgeStyles,
    NoEdgeColors,
    NoNodeStyles,
    NoNodeColors,
    NoArrows,
    Fontname(String),
    DarkTheme,
}

pub open spec fn suppresses_node_labels(opts: Seq<RenderOption>) -> bool {
    exists|i: int| 0 <= i < opts.len() && opts[i] is NoNodeLabels
}

pub open spec fn suppresses_node_styles(opts: Seq<RenderOption>) -> bool {
    exists|i: int| 0 <= i < opts.len() && opts[i] is NoNodeStyles
}

pub open spec fn suppresses_node_colors(opts: Seq<RenderOption>) -> bool {
    exists|i: int| 0 <= i < opts.len() && opts[i] is NoNodeColors
}

pub open spec fn suppresses_edge_labels(opts: Seq<RenderOption>) -> bool {
    exists|i: int| 0 <= i < opts.len() && opts[i] is NoEdgeLabels
}

pub open spec fn suppresses_edge_styles(opts: Seq<RenderOption>) -> bool {
    exists|i: int| 0 <= i < opts.len() && opts[i] is NoEdgeStyles
}

pub open spec fn suppresses_edge_colors(opts: Seq<RenderOption>) -> bool {
    exists|i: int| 0 <= i < opts.len() && opts[i] is NoEdgeColors
}

pub open spec fn suppresses_arrows(opts: Seq<RenderOption>) -> bool {
    exists|i: int| 0 <= i < opts.len() && opts[i] is NoArrows
}

pub open spec fn has_dark_theme(opts: Seq<RenderOption>) -> bool {
    exists|i: int| 0 <= i < opts.len() && opts[i] is DarkTheme
}

/// The content of the first `Fontname` option, if any.
pub open spec fn first_fontname(opts: Seq<RenderOption>) -> Option<Seq<char>>
    decreases opts.len(),
{
    if opts.len() == 0 {
        None
    } else {
        match opts[0] {
            RenderOption::Fontname(f) => Some(f@),
            _ => first_fontname(opts.drop_first()),
        }
    }
}

/// A node of a graph, resolved through the labelling contract into the plain
/// values the renderer needs.
pub struct ResolvedNode {
    pub id: Id,
    pub label: Text,
    pub style: Style,
    pub color: Option<Text>,
    pub shape: Option<Text>,
}

/// An edge, with both endpoints already resolved to their identifiers.
pub struct ResolvedEdge {
    pub source: Id,
    pub target: Id,
    pub label: Text,
    pub style: Style,
    pub color: Option<Text>,
    pub start_arrow: Arrow,
    pub end_arrow: Arrow,
}

/// A subgraph, with its member nodes resolved to their identifiers.
pub struct ResolvedSubgraph {
    pub id: Option<Id>,
    pub label: Text,
    pub style: Style,
    pub color: Option<Text>,
    pub shape: Option<Text>,
    pub nodes: Vec<Id>,
}

/// An owned snapshot of a client graph: everything the renderer emits, as
/// plain values. [`render_resolved`] turns one into DOT text whose every
/// byte is given by [`rendered_document`].
pub struct ResolvedGraph {
    pub kind: Kind,
    pub id: Id,
    pub subgraphs: Vec<ResolvedSubgraph>,
    pub nodes: Vec<ResolvedNode>,
    pub edges: Vec<ResolvedEdge>,
}

/// The bracketed label attribute of a node or edge line, empty if suppressed.
pub open spec fn label_fragment(label: Text, suppressed: bool) -> Seq<char> {
    if suppressed {
        Seq::empty()
    } else {
        "[label="@ + rendered_text(label) + "]"@
    }
}

/// The bracketed style attribute: absent styles are never emitted.
pub open spec fn style_fragment(style: Style, suppressed: bool) -> Seq<char> {
    if suppressed || style == Style::Unstyled {
        Seq::empty()
    } else {
        "[style=\""@ + style_name(style) + "\"]"@
    }
}

/// The bracketed color attribute, empty if absent or suppressed.
pub open spec fn color_fragment(color: Option<Text>, suppressed: bool) -> Seq<char> {
    if suppressed {
        Seq::empty()
    } else {
        match color {
            Some(c) => "[color="@ + rendered_text(c) + "]"@,
            None => Seq::empty(),
        }
    }
}

/// The bracketed shape attribute, empty if absent. (Shapes are not subject
/// to any suppression option.)
pub open spec fn shape_fragment(shape: Option<Text>) -> Seq<char> {
    match shape {
        Some(s) => "[shape="@ + rendered_text(s) + "]"@,
        None => Seq::empty(),
    }
}

/// One node statement: four spaces of indentation, the identifier, the
/// attribute fragments in fixed order (label, style, color, shape), and a
/// terminating `;` with line break.
pub open spec fn node_line(n: ResolvedNode, opts: Seq<RenderOption>) -> Seq<char> {
    "    "@ + n.id@ + label_fragment(n.label, suppresses_node_labels(opts)) + style_fragment(
        n.style,
        suppresses_node_styles(opts),
    ) + color_fragment(n.color, suppresses_node_colors(opts)) + shape_fragment(n.shape) + ";\n"@
}

/// The `arrowhead` part of the arrow attribute, present when the end arrow
/// is non-default.
pub open spec fn arrowhead_part(end_arrow: Arrow) -> Seq<char> {
    if arrow_is_default(end_arrow) {
        Seq::empty()
    } else {
        "arrowhead=\""@ + rendered_arrow(end_arrow) + "\""@
    }
}

/// The `dir`/`arrowtail` part of the arrow attribute, present when the start
/// arrow is non-default.
pub open spec fn arrowtail_part(start_arrow: Arrow) -> Seq<char> {
    if arrow_is_default(start_arrow) {
        Seq::empty()
    } else {
        " dir=\"both\" arrowtail=\""@ + rendered_arrow(start_arrow) + "\""@
    }
}

/// The single bracket group describing an edge's arrows. It appears exactly
/// when arrows are not suppressed and at least one of the two arrows is
/// non-default; a default (empty) arrow contributes nothing even then.
pub open spec fn arrow_fragment(start_arrow: Arrow, end_arrow: Arrow, suppressed: bool) -> Seq<
    char,
> {
    if suppressed || (arrow_is_default(start_arrow) && arrow_is_default(end_arrow)) {
        Seq::empty()
    } else {
        "["@ + arrowhead_part(end_arrow) + arrowtail_part(start_arrow) + "]"@
    }
}

/// One edge statement: indentation, the source and target identifiers joined
/// by the kind's edge operator, the attribute fragments in fixed order
/// (label, style, color, arrows), and a terminating `;` with line break.
pub open spec fn edge_line(e: ResolvedEdge, kind: Kind, opts: Seq<RenderOption>) -> Seq<char> {
    "    "@ + e.source@ + " "@ + kind_edgeop(kind) + " "@ + e.target@ + label_fragment(
        e.label,
        suppresses_edge_labels(opts),
    ) + style_fragment(e.style, suppresses_edge_styles(opts)) + color_fragment(
        e.color,
        suppresses_edge_colors(opts),
    ) + arrow_fragment(e.start_arrow, e.end_arrow, suppresses_arrows(opts)) + ";\n"@
}

/// The identifier part of a subgraph header, with its trailing space, empty
/// when the subgraph is anonymous.
pub open spec fn subgraph_id_part(id: Option<Id>) -> Seq<char> {
    match id {
        Some(i) => i@ + " "@,
        None => Seq::empty(),
    }
}

/// The subgraph's label line, unless node labels are suppressed.
pub open spec fn subgraph_label_line(label: Text, opts: Seq<RenderOption>) -> Seq<char> {
    if suppresses_node_labels(opts) {
        Seq::empty()
    } else {
        "        label="@ + rendered_text(label) + ";\n"@
    }
}

/// The subgraph's style line: emitted when the style is not absent and node
/// styles are not suppressed.
pub open spec fn subgraph_style_line(style: Style, opts: Seq<RenderOption>) -> Seq<char> {
    if suppresses_node_styles(opts) || style == Style::Unstyled {
        Seq::empty()
    } else {
        "        style=\""@ + style_name(style) + "\";\n"@
    }
}

/// The subgraph's color line: emitted when a color is present and node
/// colors are not suppressed.
pub open spec fn subgraph_color_line(color: Option<Text>, opts: Seq<RenderOption>) -> Seq<char> {
    if suppresses_node_colors(opts) {
        Seq::empty()
    } else {
        match color {
            Some(c) => "        color="@ + rendered_text(c) + ";\n"@,
            None => Seq::empty(),
        }
    }
}

/// The subgraph's shape line, emitted whenever a shape is present.
pub open spec fn subgraph_shape_line(shape: Option<Text>) -> Seq<char> {
    match shape {
        Some(s) => "        shape=\""@ + rendered_text(s) + "\";\n"@,
        None => Seq::empty(),
    }
}

/// One member line of a subgraph: the node's identifier alone.
pub open spec fn subgraph_node_line(id: Id) -> Seq<char> {
    "        "@ + id@ + ";\n"@
}

/// A whole subgraph block: header with optional identifier, attribute lines,
/// a blank separator line, one line per member node, and the closing brace
/// followed by a blank line.
pub open spec fn subgraph_block(s: ResolvedSubgraph, opts: Seq<RenderOption>) -> Seq<char> {
    "    subgraph "@ + subgraph_id_part(s.id) + "{\n"@ + subgraph_label_line(s.label, opts)
        + subgraph_style_line(s.style, opts) + subgraph_color_line(s.color, opts)
        + subgraph_shape_line(s.shape) + "\n"@ + concat_map(
        s.nodes@,
        |id: Id| subgraph_node_line(id),
    ) + "    }\n\n"@
}

/// The global font attribute `fontname="..."`, empty when no `Fontname`
/// option is given.
pub open spec fn font_attr(opts: Seq<RenderOption>) -> Seq<char> {
    match first_fontname(opts) {
        Some(f) => "fontname=\""@ + f + "\""@,
        None => Seq::empty(),
    }
}

/// The graph-level default attributes: the font (if requested) and the dark
/// background and foreground colors (if requested), joined by one space.
pub open spec fn graph_attrs_text(opts: Seq<RenderOption>) -> Seq<char> {
    let dark = "bgcolor=\"black\" fontcolor=\"white\""@;
    if first_fontname(opts) is Some {
        if has_dark_theme(opts) {
            font_attr(opts) + " "@ + dark
        } else {
            font_attr(opts)
        }
    } else {
        if has_dark_theme(opts) {
            dark
        } else {
            Seq::empty()
        }
    }
}

/// The node- and edge-level default attributes, analogous to
/// [`graph_attrs_text`].
pub open spec fn content_attrs_text(opts: Seq<RenderOption>) -> Seq<char> {
    let dark = "color=\"white\" fontcolor=\"white\""@;
    if first_fontname(opts) is Some {
        if has_dark_theme(opts) {
            font_attr(opts) + " "@ + dark
        } else {
            font_attr(opts)
        }
    } else {
        if has_dark_theme(opts) {
            dark
        } else {
            Seq::empty()
        }
    }
}

/// The global attribute block after the opening brace: three default lines
/// (`graph`, `node`, `edge`), present exactly when a `Fontname` or
/// `DarkTheme` option asks for them.
pub open spec fn attr_block(opts: Seq<RenderOption>) -> Seq<char> {
    if first_fontname(opts) is Some || has_dark_theme(opts) {
        "    graph["@ + graph_attrs_text(opts) + "];\n"@ + "    node["@ + content_attrs_text(opts)
            + "];\n"@ + "    edge["@ + content_attrs_text(opts) + "];\n"@
    } else {
        Seq::empty()
    }
}

/// The node statements of a document, in order.
pub open spec fn rendered_node_lines(ns: Seq<ResolvedNode>, opts: Seq<RenderOption>) -> Seq<char> {
    concat_map(ns, |n: ResolvedNode| node_line(n, opts))
}

/// The edge statements of a document, in order.
pub open spec fn rendered_edge_lines(es: Seq<ResolvedEdge>, kind: Kind, opts: Seq<RenderOption>) -> Seq<char> {
    concat_map(es, |e: ResolvedEdge| edge_line(e, kind, opts))
}

/// The subgraph blocks of a document, in order.
pub open spec fn rendered_subgraph_blocks(ss: Seq<ResolvedSubgraph>, opts: Seq<RenderOption>) -> Seq<char> {
    concat_map(ss, |s: ResolvedSubgraph| subgraph_block(s, opts))
}

/// The whole DOT document for a resolved graph: header line, global
/// attribute block, subgraph blocks, node statements, edge statements, and
/// the closing brace, in that order.
pub open spec fn rendered_document(g: ResolvedGraph, opts: Seq<RenderOption>) -> Seq<char> {
    kind_keyword(g.kind) + " "@ + g.id@ + " {\n"@ + attr_block(opts)
        + rendered_subgraph_blocks(g.subgraphs@, opts) + rendered_node_lines(g.nodes@, opts)
        + rendered_edge_lines(g.edges@, g.kind, opts) + "}\n"@
}

fn opts_suppress_node_labels(options: &[RenderOption]) -> (r: bool)
    ensures
        r == suppresses_node_labels(options@),
{
    let len = options.len();
    let mut i: usize = 0;
    while i < len
        invariant
            i <= len,
            len == options@.len(),
            forall|j: int| 0 <= j < i ==> !(#[trigger] options@[j] is NoNodeLabels),
        decreases len - i,
    {
        if matches!(&options[i], RenderOption::NoNodeLabels) {
            return true;
        }
        i += 1;
    }
    false
}

fn opts_suppress_node_styles(options: &[RenderOption]) -> (r: bool)
    ensures
        r == suppresses_node_styles(options@),
{
    let len = options.len();
    let mut i: usize = 0;
    while i < len
        invariant
            i <= len,
            len == options@.len(),
            forall|j: int| 0 <= j < i ==> !(#[trigger] options@[j] is NoNodeStyles),
        decreases len - i,
    {
        if matches!(&options[i], RenderOption::NoNodeStyles) {
            return true;
        }
        i += 1;
    }
    false
}

fn opts_suppress_node_colors(options: &[RenderOption]) -> (r: bool)
    ensures
        r == suppresses_node_colors(options@),
{
    let len = options.len();
    let mut i: usize = 0;
    while i < len
        invariant
            i <= len,
            len == options@.len(),
            forall|j: int| 0 <= j < i ==> !(#[trigger] options@[j] is NoNodeColors),
        decreases len - i,
    {
        if matches!(&options[i], RenderOption::NoNodeColors) {
            return true;
        }
        i += 1;
    }
    false
}

fn opts_suppress_edge_labels(options: &[RenderOption]) -> (r: bool)
    ensures
        r == suppresses_edge_labels(options@),
{
    let len = options.len();
    let mut i: usize = 0;
    while i < len
        invariant
            i <= len,
            len == options@.len(),
            forall|j: int| 0 <= j < i ==> !(#[trigger] options@[j] is NoEdgeLabels),
        decreases len - i,
    {
        if matches!(&options[i], RenderOption::NoEdgeLabels) {
            return true;
        }
        i += 1;
    }
    false
}

fn opts_suppress_edge_styles(options: &[RenderOption]) -> (r: bool)
    ensures
        r == suppresses_edge_styles(options@),
{
    let len = options.len();
    let mut i: usize = 0;
    while i < len
        invariant
            i <= len,
            len == options@.len(),
            forall|j: int| 0 <= j < i ==> !(#[trigger] options@[j] is NoEdgeStyles),
        decreases len - i,
    {
        if matches!(&options[i], RenderOption::NoEdgeStyles) {
            return true;
        }
        i += 1;
    }
    false
}

fn opts_suppress_edge_colors(options: &[RenderOption]) -> (r: bool)
    ensures
        r == suppresses_edge_colors(options@),
{
    let len = options.len();
    let mut i: usize = 0;
    while i < len
        invariant
            i <= len,
            len == options@.len(),
            forall|j: int| 0 <= j < i ==> !(#[trigger] options@[j] is NoEdgeColors),
        decreases len - i,
    {
        if matches!(&options[i], RenderOption::NoEdgeColors) {
            return true;
        }
        i += 1;
    }
    false
}

fn opts_suppress_arrows(options: &[RenderOption]) -> (r: bool)
    ensures
        r == suppresses_arrows(options@),
{
    let len = options.len();
    let mut i: usize = 0;
    while i < len
        invariant
            i <= len,
            len == options@.len(),
            forall|j: int| 0 <= j < i ==> !(#[trigger] options@[j] is NoArrows),
        decreases len - i,
    {
        if matches!(&options[i], RenderOption::NoArrows) {
            return true;
        }
        i += 1;
    }
    false
}

fn opts_dark_theme(options: &[RenderOption]) -> (r: bool)
    ensures
        r == has_dark_theme(options@),
{
    let len = options.len();
    let mut i: usize = 0;
    while i < len
        invariant
            i <= len,
            len == options@.len(),
            forall|j: int| 0 <= j < i ==> !(#[trigger] options@[j] is DarkTheme),
        decreases len - i,
    {
        if matches!(&options[i], RenderOption::DarkTheme) {
            return true;
        }
        i += 1;
    }
    false
}

proof fn lemma_first_fontname_step(opts: Seq<RenderOption>, i: int)
    requires
        0 <= i < opts.len(),
        !(opts[i] is Fontname),
    ensures
        first_fontname(opts.skip(i)) == first_fontname(opts.skip(i + 1)),
{
    assert(opts.skip(i)[0] == opts[i]);
    assert(opts.skip(i).drop_first() =~= opts.skip(i + 1));
}

fn find_fontname<'a>(options: &'a [RenderOption]) -> (r: Option<&'a String>)
    ensures
        match r {
            Some(f) => first_fontname(options@) == Some(f@),
            None => first_fontname(options@) is None,
        },
{
    let len = options.len();
    let mut i: usize = 0;
    assert(options@.skip(0) =~= options@);
    while i < len
        invariant
            i <= len,
            len == options@.len(),
            first_fontname(options@) == first_fontname(options@.skip(i as int)),
        decreases len - i,
    {
        match &options[i] {
            RenderOption::Fontname(f) => {
                assert(options@.skip(i as int)[0] == options@[i as int]);
                return Some(f);
            },
            _ => {
                proof {
                    lemma_first_fontname_step(options@, i as int);
                }
            },
        }
        i += 1;
    }
    assert(options@.skip(len as int) =~= Seq::<RenderOption>::empty());
    None
}

fn push_label_fragment(out: &mut String, label: &Text, suppressed: bool)
    ensures
        final(out)@ == old(out)@ + label_fragment(*label, suppressed),
{
    if !suppressed {
        out.append("[label=");
        let t = label.to_dot_string();
        out.append(t.as_str());
        out.append("]");
        assert(out@ =~= old(out)@ + label_fragment(*label, suppressed));
    }
}

fn push_style_fragment(out: &mut String, style: Style, suppressed: bool)
    ensures
        final(out)@ == old(out)@ + style_fragment(style, suppressed),
{
    if !suppressed && !(style == Style::Unstyled) {
        out.append("[style=\"");
        out.append(style.as_slice());
        out.append("\"]");
        assert(out@ =~= old(out)@ + style_fragment(style, suppressed));
    }
}

fn push_color_fragment(out: &mut String, color: &Option<Text>, suppressed: bool)
    ensures
        final(out)@ == old(out)@ + color_fragment(*color, suppressed),
{
    if !suppressed {
        match color {
            Some(c) => {
                out.append("[color=");
                let t = c.to_dot_string();
                out.append(t.as_str());
                out.append("]");
                assert(out@ =~= old(out)@ + color_fragment(*color, suppressed));
            },
            None => {},
        }
    }
}

fn push_shape_fragment(out: &mut String, shape: &Option<Text>)
    ensures
        final(out)@ == old(out)@ + shape_fragment(*shape),
{
    match shape {
        Some(s) => {
            out.append("[shape=");
            let t = s.to_dot_string();
            out.append(t.as_str());
            out.append("]");
            assert(out@ =~= old(out)@ + shape_fragment(*shape));
        },
        None => {},
    }
}

fn push_arrow_fragment(out: &mut String, start_arrow: &Arrow, end_arrow: &Arrow, suppressed: bool)
    ensures
        final(out)@ == old(out)@ + arrow_fragment(*start_arrow, *end_arrow, suppressed),
{
    if !suppressed && (!start_arrow.is_default() || !end_arrow.is_default()) {
        out.append("[");
        if !end_arrow.is_default() {
            out.append("arrowhead=\"");
            crate::arrow::push_arrow(out, end_arrow);
            out.append("\"");
        }
        assert(out@ =~= old(out)@ + "["@ + arrowhead_part(*end_arrow));
        if !start_arrow.is_default() {
            out.append(" dir=\"both\" arrowtail=\"");
            crate::arrow::push_arrow(out, start_arrow);
            out.append("\"");
        }
        assert(out@ =~= old(out)@ + "["@ + arrowhead_part(*end_arrow) + arrowtail_part(
            *start_arrow,
        ));
        out.append("]");
        assert(out@ =~= old(out)@ + arrow_fragment(*start_arrow, *end_arrow, suppressed));
    }
}

/// Appends the statement line for one node.
fn push_node_line(out: &mut String, n: &ResolvedNode, options: &[RenderOption])
    ensures
        final(out)@ == old(out)@ + node_line(*n, options@),
{
    out.append("    ");
    out.append(n.id.as_slice());
    push_label_fragment(out, &n.label, opts_suppress_node_labels(options));
    push_style_fragment(out, n.style, opts_suppress_node_styles(options));
    push_color_fragment(out, &n.color, opts_suppress_node_colors(options));
    push_shape_fragment(out, &n.shape);
    out.append(";\n");
    assert(out@ =~= old(out)@ + node_line(*n, options@));
}

/// Appends the statement line for one edge.
#[verifier::rlimit(30)]
fn push_edge_line(out: &mut String, e: &ResolvedEdge, kind: Kind, options: &[RenderOption])
    ensures
        final(out)@ == old(out)@ + edge_line(*e, kind, options@),
{
    out.append("    ");
    out.append(e.source.as_slice());
    out.append(" ");
    out.append(kind.edgeop());
    out.append(" ");
    out.append(e.target.as_slice());
    proof {
        assert(out@ =~= old(out)@ + ("    "@ + e.source@ + " "@ + kind_edgeop(kind) + " "@
            + e.target@));
    }
    let ghost head = "    "@ + e.source@ + " "@ + kind_edgeop(kind) + " "@ + e.target@;
    push_label_fragment(out, &e.label, opts_suppress_edge_labels(options));
    let ghost with_label = head + label_fragment(e.label, suppresses_edge_labels(options@));
    proof {
        assert(out@ =~= old(out)@ + with_label);
    }
    push_style_fragment(out, e.style, opts_suppress_edge_styles(options));
    let ghost with_style = with_label + style_fragment(e.style, suppresses_edge_styles(options@));
    proof {
        assert(out@ =~= old(out)@ + with_style);
    }
    push_color_fragment(out, &e.color, opts_suppress_edge_colors(options));
    let ghost with_color = with_style + color_fragment(e.color, suppresses_edge_colors(options@));
    proof {
        assert(out@ =~= old(out)@ + with_color);
    }
    push_arrow_fragment(out, &e.start_arrow, &e.end_arrow, opts_suppress_arrows(options));
    let ghost with_arrow = with_color + arrow_fragment(
        e.start_arrow,
        e.end_arrow,
        suppresses_arrows(options@),
    );
    proof {
        assert(out@ =~= old(out)@ + with_arrow);
    }
    out.append(";\n");
    proof {
        assert(out@ =~= old(out)@ + (with_arrow + ";\n"@));
        assert(with_arrow + ";\n"@ == edge_line(*e, kind, options@));
    }
}

fn push_subgraph_header(out: &mut String, id: &Option<Id>)
    ensures
        final(out)@ == old(out)@ + ("    subgraph "@ + subgraph_id_part(*id) + "{\n"@),
{
    out.append("    subgraph ");
    match id {
        Some(i) => {
            out.append(i.as_slice());
            out.append(" ");
        },
        None => {},
    }
    out.append("{\n");
    assert(out@ =~= old(out)@ + ("    subgraph "@ + subgraph_id_part(*id) + "{\n"@));
}

fn push_subgraph_label_line(out: &mut String, label: &Text, options: &[RenderOption])
    ensures
        final(out)@ == old(out)@ + subgraph_label_line(*label, options@),
{
    if !opts_suppress_node_labels(options) {
        out.append("        label=");
        let t = label.to_dot_string();
        out.append(t.as_str());
        out.append(";\n");
        assert(out@ =~= old(out)@ + subgraph_label_line(*label, options@));
    }
}

fn push_subgraph_style_line(out: &mut String, style: Style, options: &[RenderOption])
    ensures
        final(out)@ == old(out)@ + subgraph_style_line(style, options@),
{
    if !opts_suppress_node_styles(options) && !(style == Style::Unstyled) {
        out.append("        style=\"");
        out.append(style.as_slice());
        out.append("\";\n");
        assert(out@ =~= old(out)@ + subgraph_style_line(style, options@));
    }
}

fn push_subgraph_color_line(out: &mut String, color: &Option<Text>, options: &[RenderOption])
    ensures
        final(out)@ == old(out)@ + subgraph_color_line(*color, options@),
{
    if !opts_suppress_node_colors(options) {
        match color {
            Some(c) => {
                out.append("        color=");
                let t = c.to_dot_string();
                out.append(t.as_str());
                out.append(";\n");
                assert(out@ =~= old(out)@ + subgraph_color_line(*color, options@));
            },
            None => {},
        }
    }
}

fn push_subgraph_shape_line(out: &mut String, shape: &Option<Text>)
    ensures
        final(out)@ == old(out)@ + subgraph_shape_line(*shape),
{
    match shape {
        Some(s) => {
            out.append("        shape=\"");
            let t = s.to_dot_string();
            out.append(t.as_str());
            out.append("\";\n");
            assert(out@ =~= old(out)@ + subgraph_shape_line(*shape));
        },
        None => {},
    }
}

/// Appends the block for one subgraph.
fn push_subgraph_block(out: &mut String, s: &ResolvedSubgraph, options: &[RenderOption])
    ensures
        final(out)@ == old(out)@ + subgraph_block(*s, options@),
{
    push_subgraph_header(out, &s.id);
    let ghost head = "    subgraph "@ + subgraph_id_part(s.id) + "{\n"@;
    push_subgraph_label_line(out, &s.label, options);
    let ghost with_label = head + subgraph_label_line(s.label, options@);
    proof {
        assert(out@ =~= old(out)@ + with_label);
    }
    push_subgraph_style_line(out, s.style, options);
    let ghost with_style = with_label + subgraph_style_line(s.style, options@);
    proof {
        assert(out@ =~= old(out)@ + with_style);
    }
    push_subgraph_color_line(out, &s.color, options);
    let ghost with_color = with_style + subgraph_color_line(s.color, options@);
    proof {
        assert(out@ =~= old(out)@ + with_color);
    }
    push_subgraph_shape_line(out, &s.shape);
    let ghost with_shape = with_color + subgraph_shape_line(s.shape);
    proof {
        assert(out@ =~= old(out)@ + with_shape);
    }
    out.append("\n");
    let ghost with_break = with_shape + "\n"@;
    proof {
        assert(out@ =~= old(out)@ + with_break);
    }
    let len = s.nodes.len();
    let mut i: usize = 0;
    while i < len
        invariant
            i <= len,
            len == s.nodes@.len(),
            out@ == old(out)@ + with_break + concat_map(
                s.nodes@.take(i as int),
                |id: Id| subgraph_node_line(id),
            ),
        decreases len - i,
    {
        out.append("        ");
        out.append(s.nodes[i].as_slice());
        out.append(";\n");
        proof {
            lemma_concat_map_take_succ(s.nodes@, |id: Id| subgraph_node_line(id), i as int);
            assert(out@ =~= old(out)@ + with_break + concat_map(
                s.nodes@.take(i + 1),
                |id: Id| subgraph_node_line(id),
            ));
        }
        i += 1;
    }
    proof {
        assert(s.nodes@.take(len as int) =~= s.nodes@);
    }
    let ghost with_nodes = with_break + concat_map(s.nodes@, |id: Id| subgraph_node_line(id));
    proof {
        assert(out@ =~= old(out)@ + with_nodes);
    }
    out.append("    }\n\n");
    proof {
        assert(out@ =~= old(out)@ + (with_nodes + "    }\n\n"@));
        assert(with_nodes + "    }\n\n"@ == subgraph_block(*s, options@));
    }
}

fn push_graph_attrs(out: &mut String, options: &[RenderOption])
    ensures
        final(out)@ == old(out)@ + graph_attrs_text(options@),
{
    let dark = opts_dark_theme(options);
    match find_fontname(options) {
        Some(f) => {
            out.append("fontname=\"");
            out.append(f.as_str());
            out.append("\"");
            if dark {
                out.append(" ");
                out.append("bgcolor=\"black\" fontcolor=\"white\"");
            }
            assert(out@ =~= old(out)@ + graph_attrs_text(options@));
        },
        None => {
            if dark {
                out.append("bgcolor=\"black\" fontcolor=\"white\"");
            }
            assert(out@ =~= old(out)@ + graph_attrs_text(options@));
        },
    }
}

fn push_content_attrs(out: &mut String, options: &[RenderOption])
    ensures
        final(out)@ == old(out)@ + content_attrs_text(options@),
{
    let dark = opts_dark_theme(options);
    match find_fontname(options) {
        Some(f) => {
            out.append("fontname=\"");
            out.append(f.as_str());
            out.append("\"");
            if dark {
                out.append(" ");
                out.append("color=\"white\" fontcolor=\"white\"");
            }
            assert(out@ =~= old(out)@ + content_attrs_text(options@));
        },
        None => {
            if dark {
                out.append("color=\"white\" fontcolor=\"white\"");
            }
            assert(out@ =~= old(out)@ + content_attrs_text(options@));
        },
    }
}

/// Appends the global attribute block, if any option calls for one.
fn push_attr_block(out: &mut String, options: &[RenderOption])
    ensures
        final(out)@ == old(out)@ + attr_block(options@),
{
    let has_font = match find_fontname(options) {
        Some(_) => true,
        None => false,
    };
    if has_font || opts_dark_theme(options) {
        out.append("    graph[");
        push_graph_attrs(out, options);
        out.append("];\n");
        let ghost g_line = "    graph["@ + graph_attrs_text(options@) + "];\n"@;
        proof {
            assert(out@ =~= old(out)@ + g_line);
        }
        out.append("    node[");
        push_content_attrs(out, options);
        out.append("];\n");
        let ghost n_line = g_line + "    node["@ + content_attrs_text(options@) + "];\n"@;
        proof {
            assert(out@ =~= old(out)@ + n_line);
        }
        out.append("    edge[");
        push_content_attrs(out, options);
        out.append("];\n");
        proof {
            assert(out@ =~= old(out)@ + (n_line + "    edge["@ + content_attrs_text(options@)
                + "];\n"@));
            assert(n_line + "    edge["@ + content_attrs_text(options@) + "];\n"@ == attr_block(
                options@,
            ));
        }
    }
}

/// Renders an already-resolved graph into DOT text. This is the serialiser
/// proper: the returned text is exactly [`rendered_document`] of the graph
/// and options.
pub fn render_resolved(graph: &ResolvedGraph, options: &[RenderOption]) -> (out: String)
    ensures
        out@ == rendered_document(*graph, options@),
{
    let mut out = String::new();
    out.append(graph.kind.keyword());
    out.append(" ");
    out.append(graph.id.as_slice());
    out.append(" {\n");
    let ghost head = kind_keyword(graph.kind) + " "@ + graph.id@ + " {\n"@;
    proof {
        assert(out@ =~= head);
    }
    push_attr_block(&mut out, options);
    let ghost with_attrs = head + attr_block(options@);
    proof {
        assert(out@ =~= with_attrs);
    }
    let sub_len = graph.subgraphs.len();
    let mut i: usize = 0;
    while i < sub_len
        invariant
            i <= sub_len,
            sub_len == graph.subgraphs@.len(),
            out@ == with_attrs + concat_map(
                graph.subgraphs@.take(i as int),
                |s: ResolvedSubgraph| subgraph_block(s, options@),
            ),
        decreases sub_len - i,
    {
        push_subgraph_block(&mut out, &graph.subgraphs[i], options);
        proof {
            lemma_concat_map_take_succ(
                graph.subgraphs@,
                |s: ResolvedSubgraph| subgraph_block(s, options@),
                i as int,
            );
        }
        i += 1;
    }
    proof {
        assert(graph.subgraphs@.take(sub_len as int) =~= graph.subgraphs@);
    }
    let ghost with_subgraphs = with_attrs + concat_map(
        graph.subgraphs@,
        |s: ResolvedSubgraph| subgraph_block(s, options@),
    );
    proof {
        assert(out@ =~= with_subgraphs);
    }
    let node_len = graph.nodes.len();
    let mut i: usize = 0;
    while i < node_len
        invariant
            i <= node_len,
            node_len == graph.nodes@.len(),
            out@ == with_subgraphs + concat_map(
                graph.nodes@.take(i as int),
                |n: ResolvedNode| node_line(n, options@),
            ),
        decreases node_len - i,
    {
        push_node_line(&mut out, &graph.nodes[i], options);
        proof {
            lemma_concat_map_take_succ(
                graph.nodes@,
                |n: ResolvedNode| node_line(n, options@),
                i as int,
            );
        }
        i += 1;
    }
    proof {
        assert(graph.nodes@.take(node_len as int) =~= graph.nodes@);
    }
    let ghost with_nodes = with_subgraphs + concat_map(
        graph.nodes@,
        |n: ResolvedNode| node_line(n, options@),
    );
    proof {
        assert(out@ =~= with_nodes);
    }
    let edge_len = graph.edges.len();
    let mut i: usize = 0;
    while i < edge_len
        invariant
            i <= edge_len,
            edge_len == graph.edges@.len(),
            out@ == with_nodes + concat_map(
                graph.edges@.take(i as int),
                |e: ResolvedEdge| edge_line(e, graph.kind, options@),
            ),
        decreases edge_len - i,
    {
        push_edge_line(&mut out, &graph.edges[i], graph.kind, options);
        proof {
            lemma_concat_map_take_succ(
                graph.edges@,
                |e: ResolvedEdge| edge_line(e, graph.kind, options@),
                i as int,
            );
        }
        i += 1;
    }
    proof {
        assert(graph.edges@.take(edge_len as int) =~= graph.edges@);
    }
    let ghost with_edges = with_nodes + concat_map(
        graph.edges@,
        |e: ResolvedEdge| edge_line(e, graph.kind, options@),
    );
    proof {
        assert(out@ =~= with_edges);
    }
    out.append("}\n");
    proof {
        assert(out@ =~= with_edges + "}\n"@);
        assert(with_edges + "}\n"@ == rendered_document(*graph, options@));
    }
    out
}

/// Resolves one node through the labelling contract.
fn resolve_node<N, G: Labeller<Node = N>>(g: &G, n: &N) -> Result<ResolvedNode, Error> {
    let id = g.node_id(n)?;
    let label = g.node_label(n)?;
    Ok(
        ResolvedNode {
            id,
            label,
            style: g.node_style(n),
            color: g.node_color(n),
            shape: g.node_shape(n),
        },
    )
}

/// Resolves one edge: its endpoints become identifiers via the labelling
/// contract.
fn resolve_edge<N, E, S, G: Labeller<Node = N, Edge = E, Subgraph = S> + GraphWalk<
    Node = N,
    Edge = E,
    Subgraph = S,
>>(g: &G, e: &E) -> Result<ResolvedEdge, Error> where N: Clone, E: Clone, S: Clone {
    let source = g.source(e);
    let target = g.target(e);
    let source_id = g.node_id(&source)?;
    let target_id = g.node_id(&target)?;
    Ok(
        ResolvedEdge {
            source: source_id,
            target: target_id,
            label: g.edge_label(e),
            style: g.edge_style(e),
            color: g.edge_color(e),
            start_arrow: g.edge_start_arrow(e),
            end_arrow: g.edge_end_arrow(e),
        },
    )
}

/// Resolves one subgraph, mapping each member node to its identifier.
fn resolve_subgraph<N, E, S, G: Labeller<Node = N, Edge = E, Subgraph = S> + GraphWalk<
    Node = N,
    Edge = E,
    Subgraph = S,
>>(g: &G, s: &S) -> Result<ResolvedSubgraph, Error> where N: Clone, E: Clone, S: Clone {
    let members = g.subgraph_nodes(s);
    let mut ids: Vec<Id> = Vec::new();
    let len = members.len();
    let mut i: usize = 0;
    while i < len
        invariant
            i <= len,
            len == members@.len(),
        decreases len - i,
    {
        let id = g.node_id(&members[i])?;
        ids.push(id);
        i += 1;
    }
    Ok(
        ResolvedSubgraph {
            id: g.subgraph_id(s),
            label: g.subgraph_label(s),
            style: g.subgraph_style(s),
            color: g.subgraph_color(s),
            shape: g.subgraph_shape(s),
            nodes: ids,
        },
    )
}

/// Takes an owned snapshot of a client graph: every identifier, label,
/// style, color, shape and arrow the renderer will need, resolved through
/// the two contracts. Fails, without rendering anything, on the first
/// invalid identifier.
pub fn resolve_graph<N, E, S, G: Labeller<Node = N, Edge = E, Subgraph = S> + GraphWalk<
    Node = N,
    Edge = E,
    Subgraph = S,
>>(g: &G) -> Result<ResolvedGraph, Error> where N: Clone, E: Clone, S: Clone {
    let kind = g.kind();
    let id = g.graph_id()?;
    let subgraphs = g.subgraphs();
    let mut resolved_subgraphs: Vec<ResolvedSubgraph> = Vec::new();
    let sub_len = subgraphs.len();
    let mut i: usize = 0;
    while i < sub_len
        invariant
            i <= sub_len,
            sub_len == subgraphs@.len(),
        decreases sub_len - i,
    {
        let rs = resolve_subgraph(g, &subgraphs[i])?;
        resolved_subgraphs.push(rs);
        i += 1;
    }
    let nodes = g.nodes();
    let mut resolved_nodes: Vec<ResolvedNode> = Vec::new();
    let node_len = nodes.len();
    let mut i: usize = 0;
    while i < node_len
        invariant
            i <= node_len,
            node_len == nodes@.len(),
        decreases node_len - i,
    {
        let rn = resolve_node(g, &nodes[i])?;
        resolved_nodes.push(rn);
        i += 1;
    }
    let edges = g.edges();
    let mut resolved_edges: Vec<ResolvedEdge> = Vec::new();
    let edge_len = edges.len();
    let mut i: usize = 0;
    while i < edge_len
        invariant
            i <= edge_len,
            edge_len == edges@.len(),
        decreases edge_len - i,
    {
        let re = resolve_edge(g, &edges[i])?;
        resolved_edges.push(re);
        i += 1;
    }
    Ok(
        ResolvedGraph {
            kind,
            id,
            subgraphs: resolved_subgraphs,
            nodes: resolved_nodes,
            edges: resolved_edges,
        },
    )
}

/// Renders directed graph `g` into DOT text.
/// (Main entry point for the library.)
///
/// What the labelling and topology contracts answer cannot be known here, so
/// the contract promises the shape of the result: on success the text is the
/// rendering, under the given options, of some resolved graph — the snapshot
/// that [`resolve_graph`] took. An identifier error from the contracts is
/// passed through, and nothing is rendered.
pub fn render_opts<N, E, S, G: Labeller<Node = N, Edge = E, Subgraph = S> + GraphWalk<
    Node = N,
    Edge = E,
    Subgraph = S,
>>(g: &G, options: &[RenderOption]) -> (r: Result<String, Error>) where
    N: Clone,
    E: Clone,
    S: Clone,

    ensures
        r matches Ok(text) ==> exists|rg: ResolvedGraph|
            text@ == rendered_document(rg, options@),
{
    match resolve_graph(g) {
        Ok(rg) => {
            let text = render_resolved(&rg, options);
            proof {
                assert(text@ == rendered_document(rg, options@));
            }
            Ok(text)
        },
        Err(e) => Err(e),
    }
}

/// Renders directed graph `g` into DOT text.
/// (Simple wrapper around `render_opts` that passes a default set of options.)
pub fn render<N, E, S, G: Labeller<Node = N, Edge = E, Subgraph = S> + GraphWalk<
    Node = N,
    Edge = E,
    Subgraph = S,
>>(g: &G) -> (r: Result<String, Error>) where
    N: Clone,
    E: Clone,
    S: Clone,

    ensures
        r matches Ok(text) ==> exists|rg: ResolvedGraph| text@ == rendered_document(rg, Seq::empty()),
{
    let no_options: Vec<RenderOption> = Vec::new();
    render_opts(g, no_options.as_slice())
}

/// Appends the statement lines for the given nodes, resolved through `g`, to
/// `out`. On an identifier error, nothing is appended.
pub fn render_nodes<N, E, S, G: Labeller<Node = N, Edge = E, Subgraph = S> + GraphWalk<
    Node = N,
    Edge = E,
    Subgraph = S,
>>(g: &G, nodes: &Vec<N>, out: &mut String, options: &[RenderOption]) -> (r: Result<(), Error>) where
    N: Clone,
    E: Clone,
    S: Clone,

    ensures
        r is Ok ==> exists|rs: Seq<ResolvedNode>|
            final(out)@ == old(out)@ + #[trigger] rendered_node_lines(rs, options@),
        r is Err ==> final(out)@ == old(out)@,
{
    let mut resolved: Vec<ResolvedNode> = Vec::new();
    let len = nodes.len();
    let mut i: usize = 0;
    while i < len
        invariant
            i <= len,
            len == nodes@.len(),
        decreases len - i,
    {
        let rn = resolve_node(g, &nodes[i])?;
        resolved.push(rn);
        i += 1;
    }
    let rlen = resolved.len();
    let mut i: usize = 0;
    while i < rlen
        invariant
            i <= rlen,
            rlen == resolved@.len(),
            out@ == old(out)@ + concat_map(
                resolved@.take(i as int),
                |n: ResolvedNode| node_line(n, options@),
            ),
        decreases rlen - i,
    {
        push_node_line(out, &resolved[i], options);
        proof {
            lemma_concat_map_take_succ(
                resolved@,
                |n: ResolvedNode| node_line(n, options@),
                i as int,
            );
        }
        i += 1;
    }
    proof {
        assert(resolved@.take(rlen as int) =~= resolved@);
        assert(out@ == old(out)@ + rendered_node_lines(resolved@, options@));
    }
    Ok(())
}

/// Appends the statement lines for the given edges, resolved through `g`, to
/// `out`. On an identifier error, nothing is appended.
pub fn render_edges<N, E, S, G: Labeller<Node = N, Edge = E, Subgraph = S> + GraphWalk<
    Node = N,
    Edge = E,
    Subgraph = S,
>>(g: &G, edges: &Vec<E>, out: &mut String, options: &[RenderOption]) -> (r: Result<(), Error>) where
    N: Clone,
    E: Clone,
    S: Clone,

    ensures
        r is Ok ==> exists|rs: Seq<ResolvedEdge>, k: Kind|
            final(out)@ == old(out)@ + #[trigger] rendered_edge_lines(rs, k, options@),
        r is Err ==> final(out)@ == old(out)@,
{
    let kind = g.kind();
    let mut resolved: Vec<ResolvedEdge> = Vec::new();
    let len = edges.len();
    let mut i: usize = 0;
    while i < len
        invariant
            i <= len,
            len == edges@.len(),
        decreases len - i,
    {
        let re = resolve_edge(g, &edges[i])?;
        resolved.push(re);
        i += 1;
    }
    let rlen = resolved.len();
    let mut i: usize = 0;
    while i < rlen
        invariant
            i <= rlen,
            rlen == resolved@.len(),
            out@ == old(out)@ + concat_map(
                resolved@.take(i as int),
                |e: ResolvedEdge| edge_line(e, kind, options@),
            ),
        decreases rlen - i,
    {
        push_edge_line(out, &resolved[i], kind, options);
        proof {
            lemma_concat_map_take_succ(
                resolved@,
                |e: ResolvedEdge| edge_line(e, kind, options@),
                i as int,
            );
        }
        i += 1;
    }
    proof {
        assert(resolved@.take(rlen as int) =~= resolved@);
        assert(out@ == old(out)@ + rendered_edge_lines(resolved@, kind, options@));
    }
    Ok(())
}

/// An absent style never reaches the output: a node whose style is
/// [`Style::Unstyled`] renders, under any options, to the very line it would
/// render to with no style attribute at all.
pub proof fn lemma_unstyled_node_not_emitted(n: ResolvedNode, opts: Seq<RenderOption>)
    requires
        n.style == Style::Unstyled,
    ensures
        node_line(n, opts) == "    "@ + n.id@ + label_fragment(
            n.label,
            suppresses_node_labels(opts),
        ) + color_fragment(n.color, suppresses_node_colors(opts)) + shape_fragment(n.shape)
            + ";\n"@,
{
    assert(node_line(n, opts) =~= "    "@ + n.id@ + label_fragment(
        n.label,
        suppresses_node_labels(opts),
    ) + color_fragment(n.color, suppresses_node_colors(opts)) + shape_fragment(n.shape) + ";\n"@);
}

/// A present style appears exactly once: when styles are not suppressed, a
/// node's line carries the single bracket group `[style="<name>"]` between
/// its label and color fragments.
pub proof fn lemma_styled_node_emitted_once(n: ResolvedNode, opts: Seq<RenderOption>)
    requires
        n.style != Style::Unstyled,
        !suppresses_node_styles(opts),
    ensures
        node_line(n, opts) == "    "@ + n.id@ + label_fragment(
            n.label,
            suppresses_node_labels(opts),
        ) + ("[style=\""@ + style_name(n.style) + "\"]"@) + color_fragment(
            n.color,
            suppresses_node_colors(opts),
        ) + shape_fragment(n.shape) + ";\n"@,
{
}

/// The analogue of [`lemma_unstyled_node_not_emitted`] for edges.
pub proof fn lemma_unstyled_edge_not_emitted(e: ResolvedEdge, kind: Kind, opts: Seq<RenderOption>)
    requires
        e.style == Style::Unstyled,
    ensures
        edge_line(e, kind, opts) == "    "@ + e.source@ + " "@ + kind_edgeop(kind) + " "@
            + e.target@ + label_fragment(e.label, suppresses_edge_labels(opts)) + color_fragment(
            e.color,
            suppresses_edge_colors(opts),
        ) + arrow_fragment(e.start_arrow, e.end_arrow, suppresses_arrows(opts)) + ";\n"@,
{
    assert(edge_line(e, kind, opts) =~= "    "@ + e.source@ + " "@ + kind_edgeop(kind) + " "@
        + e.target@ + label_fragment(e.label, suppresses_edge_labels(opts)) + color_fragment(
        e.color,
        suppresses_edge_colors(opts),
    ) + arrow_fragment(e.start_arrow, e.end_arrow, suppresses_arrows(opts)) + ";\n"@);
}

/// An edge with both arrows set renders one bracket group holding the
/// `arrowhead`, then `dir="both"` and the `arrowtail`.
pub proof fn lemma_arrow_bracket_both(start_arrow: Arrow, end_arrow: Arrow)
    requires
        !arrow_is_default(start_arrow),
        !arrow_is_default(end_arrow),
    ensures
        arrow_fragment(start_arrow, end_arrow, false) == "["@ + ("arrowhead=\""@ + rendered_arrow(
            end_arrow,
        ) + "\""@) + (" dir=\"both\" arrowtail=\""@ + rendered_arrow(start_arrow) + "\""@) + "]"@,
{
}

/// An edge with only an end arrow omits the `dir`/`arrowtail` portion
/// entirely: the bracket group holds the `arrowhead` alone.
pub proof fn lemma_arrow_bracket_end_only(start_arrow: Arrow, end_arrow: Arrow)
    requires
        arrow_is_default(start_arrow),
        !arrow_is_default(end_arrow),
    ensures
        arrow_fragment(start_arrow, end_arrow, false) == "["@ + ("arrowhead=\""@ + rendered_arrow(
            end_arrow,
        ) + "\""@) + "]"@,
{
    assert(arrow_fragment(start_arrow, end_arrow, false) =~= "["@ + ("arrowhead=\""@
        + rendered_arrow(end_arrow) + "\""@) + "]"@);
}

/// A self-loop renders the same identifier on both sides of the edge
/// operator.
pub proof fn lemma_self_loop(e: ResolvedEdge, kind: Kind, opts: Seq<RenderOption>)
    requires
        e.source@ == e.target@,
    ensures
        edge_line(e, kind, opts) == "    "@ + e.source@ + " "@ + kind_edgeop(kind) + " "@
            + e.source@ + label_fragment(e.label, suppresses_edge_labels(opts)) + style_fragment(
            e.style,
            suppresses_edge_styles(opts),
        ) + color_fragment(e.color, suppresses_edge_colors(opts)) + arrow_fragment(
            e.start_arrow,
            e.end_arrow,
            suppresses_arrows(opts),
        ) + ";\n"@,
{
}

/// An option set that suppresses every label, style, color and arrow.
pub open spec fn all_suppressing(opts: Seq<RenderOption>) -> bool {
    &&& suppresses_node_labels(opts)
    &&& suppresses_node_styles(opts)
    &&& suppresses_node_colors(opts)
    &&& suppresses_edge_labels(opts)
    &&& suppresses_edge_styles(opts)
    &&& suppresses_edge_colors(opts)
    &&& suppresses_arrows(opts)
}

/// The two identifiers are both absent, or both present and equal.
pub open spec fn same_opt_id(a: Option<Id>, b: Option<Id>) -> bool {
    match (a, b) {
        (Some(x), Some(y)) => x@ == y@,
        (None, None) => true,
        _ => false,
    }
}

/// The two identifier sequences are equal, name for name.
pub open spec fn same_id_seq(a: Seq<Id>, b: Seq<Id>) -> bool {
    a.len() == b.len() && forall|i: int| 0 <= i < a.len() ==> a[i]@ == b[i]@
}

/// Two graphs agree on everything that survives full suppression: the kind,
/// the graph identifier, the node identifiers, the edge endpoints, and the
/// subgraph identifiers and member nodes — with no shape anywhere, since
/// shapes are not subject to a suppression option.
pub open spec fn same_topology(g1: ResolvedGraph, g2: ResolvedGraph) -> bool {
    &&& g1.kind == g2.kind
    &&& g1.id@ == g2.id@
    &&& g1.nodes@.len() == g2.nodes@.len()
    &&& forall|i: int| 0 <= i < g1.nodes@.len() ==> (#[trigger] g1.nodes@[i]).id@
        == (#[trigger] g2.nodes@[i]).id@ && g1.nodes@[i].shape is None && g2.nodes@[i].shape
        is None
    &&& g1.edges@.len() == g2.edges@.len()
    &&& forall|i: int| 0 <= i < g1.edges@.len() ==> (#[trigger] g1.edges@[i]).source@
        == (#[trigger] g2.edges@[i]).source@ && g1.edges@[i].target@ == g2.edges@[i].target@
    &&& g1.subgraphs@.len() == g2.subgraphs@.len()
    &&& forall|i: int| 0 <= i < g1.subgraphs@.len() ==> same_opt_id(
        (#[trigger] g1.subgraphs@[i]).id,
        (#[trigger] g2.subgraphs@[i]).id,
    ) && g1.subgraphs@[i].shape is None && g2.subgraphs@[i].shape is None && same_id_seq(
        g1.subgraphs@[i].nodes@,
        g2.subgraphs@[i].nodes@,
    )
}

proof fn lemma_suppressed_node_line(n1: ResolvedNode, n2: ResolvedNode, opts: Seq<RenderOption>)
    requires
        all_suppressing(opts),
        n1.id@ == n2.id@,
        n1.shape is None,
        n2.shape is None,
    ensures
        node_line(n1, opts) == node_line(n2, opts),
{
    assert(node_line(n1, opts) =~= node_line(n2, opts));
}

proof fn lemma_suppressed_edge_line(
    e1: ResolvedEdge,
    e2: ResolvedEdge,
    kind: Kind,
    opts: Seq<RenderOption>,
)
    requires
        all_suppressing(opts),
        e1.source@ == e2.source@,
        e1.target@ == e2.target@,
    ensures
        edge_line(e1, kind, opts) == edge_line(e2, kind, opts),
{
    assert(edge_line(e1, kind, opts) =~= edge_line(e2, kind, opts));
}

proof fn lemma_suppressed_subgraph_block(
    s1: ResolvedSubgraph,
    s2: ResolvedSubgraph,
    opts: Seq<RenderOption>,
)
    requires
        all_suppressing(opts),
        same_opt_id(s1.id, s2.id),
        s1.shape is None,
        s2.shape is None,
        same_id_seq(s1.nodes@, s2.nodes@),
    ensures
        subgraph_block(s1, opts) == subgraph_block(s2, opts),
{
    assert forall|i: int| 0 <= i < s1.nodes@.len() implies (|id: Id| subgraph_node_line(id))(
        #[trigger] s1.nodes@[i],
    ) == (|id: Id| subgraph_node_line(id))(#[trigger] s2.nodes@[i]) by {
        assert(s1.nodes@[i]@ == s2.nodes@[i]@);
        assert(subgraph_node_line(s1.nodes@[i]) =~= subgraph_node_line(s2.nodes@[i]));
    }
    crate::concat::lemma_concat_map_congruence(
        s1.nodes@,
        s2.nodes@,
        |id: Id| subgraph_node_line(id),
        |id: Id| subgraph_node_line(id),
    );
    assert(subgraph_id_part(s1.id) =~= subgraph_id_part(s2.id));
    assert(subgraph_block(s1, opts) =~= subgraph_block(s2, opts));
}

/// Suppressing every label, style, color and arrow reduces the output to
/// identifiers and structural syntax alone: two graphs with the same
/// topology — a fully decorated one and an undecorated one alike — render
/// to identical text under such options.
pub proof fn lemma_suppressed_output_topological(
    g1: ResolvedGraph,
    g2: ResolvedGraph,
    opts: Seq<RenderOption>,
)
    requires
        all_suppressing(opts),
        same_topology(g1, g2),
    ensures
        rendered_document(g1, opts) == rendered_document(g2, opts),
{
    assert forall|i: int| 0 <= i < g1.subgraphs@.len() implies (
    |s: ResolvedSubgraph| subgraph_block(s, opts))(#[trigger] g1.subgraphs@[i]) == (
    |s: ResolvedSubgraph| subgraph_block(s, opts))(#[trigger] g2.subgraphs@[i]) by {
        lemma_suppressed_subgraph_block(g1.subgraphs@[i], g2.subgraphs@[i], opts);
    }
    crate::concat::lemma_concat_map_congruence(
        g1.subgraphs@,
        g2.subgraphs@,
        |s: ResolvedSubgraph| subgraph_block(s, opts),
        |s: ResolvedSubgraph| subgraph_block(s, opts),
    );
    assert forall|i: int| 0 <= i < g1.nodes@.len() implies (|n: ResolvedNode| node_line(n, opts))(
        #[trigger] g1.nodes@[i],
    ) == (|n: ResolvedNode| node_line(n, opts))(#[trigger] g2.nodes@[i]) by {
        lemma_suppressed_node_line(g1.nodes@[i], g2.nodes@[i], opts);
    }
    crate::concat::lemma_concat_map_congruence(
        g1.nodes@,
        g2.nodes@,
        |n: ResolvedNode| node_line(n, opts),
        |n: ResolvedNode| node_line(n, opts),
    );
    assert forall|i: int| 0 <= i < g1.edges@.len() implies (
    |e: ResolvedEdge| edge_line(e, g1.kind, opts))(#[trigger] g1.edges@[i]) == (
    |e: ResolvedEdge| edge_line(e, g2.kind, opts))(#[trigger] g2.edges@[i]) by {
        lemma_suppressed_edge_line(g1.edges@[i], g2.edges@[i], g1.kind, opts);
    }
    crate::concat::lemma_concat_map_congruence(
        g1.edges@,
        g2.edges@,
        |e: ResolvedEdge| edge_line(e, g1.kind, opts),
        |e: ResolvedEdge| edge_line(e, g2.kind, opts),
    );
    assert(rendered_document(g1, opts) =~= rendered_document(g2, opts));
}

} // verus!
