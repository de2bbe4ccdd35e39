use vstd::prelude::*;

use crate::arrow::Arrow;
use crate::concat::{concat_map, lemma_concat_map_take_succ};
use crate::errors::Error;
use crate::id::Id;
use crate::kind::Kind;
use crate::style::Style;

verus! {

/// The text for a graphviz label on a node or edge.
#[derive(Clone)]
pub enum Text {
    /// This kind of label preserves the text directly as is.
    ///
    /// Occurrences of backslashes (`\`) are escaped, and thus appear
    /// as backslashes in the rendered label.
    LabelStr(String),
    /// This kind of label uses the graphviz label escString type:
    /// <https://www.graphviz.org/content/attrs#kescString>
    ///
    /// Occurrences of backslashes (`\`) are not escaped; instead they
    /// are interpreted as initiating an escString escape sequence.
    ///
    /// Escape sequences of particular interest: in addition to `\n`
    /// to break a line (centering the line preceding the `\n`), there
    /// are also the escape sequences `\l` which left-justifies the
    /// preceding line and `\r` which right-justifies it.
    EscStr(String),
    /// This uses a graphviz [HTML string label][html]. The string is
    /// printed exactly as given, but between `<` and `>`. **No
    /// escaping is performed.**
    ///
    /// [html]: https://www.graphviz.org/content/node-shapes#html
    HtmlStr(String),
}

/// The lowercase hexadecimal digit for `d` (which must be below 16).
pub open spec fn hex_digit(d: u32) -> char {
    if d == 0 {
        '0'
    } else if d == 1 {
        '1'
    } else if d == 2 {
        '2'
    } else if d == 3 {
        '3'
    } else if d == 4 {
        '4'
    } else if d == 5 {
        '5'
    } else if d == 6 {
        '6'
    } else if d == 7 {
        '7'
    } else if d == 8 {
        '8'
    } else if d == 9 {
        '9'
    } else if d == 10 {
        'a'
    } else if d == 11 {
        'b'
    } else if d == 12 {
        'c'
    } else if d == 13 {
        'd'
    } else if d == 14 {
        'e'
    } else {
        'f'
    }
}

/// The lowercase hexadecimal digits of `n`, most significant first, without
/// leading zeros.
pub open spec fn hex_seq(n: u32) -> Seq<char>
    decreases n,
{
    if n < 16 {
        seq![hex_digit(n)]
    } else {
        hex_seq(n / 16).push(hex_digit(n % 16))
    }
}

/// How one character is escaped inside a quoted string literal: the
/// char-by-char default escaping (tab, carriage return, line feed, backslash
/// and both quote characters get a backslash escape; other printable ASCII
/// stands for itself; everything else becomes a `\u{..}` escape with
/// lowercase hexadecimal digits).
pub open spec fn escaped_char(c: char) -> Seq<char> {
    if c == '\t' {
        seq!['\\', 't']
    } else if c == '\r' {
        seq!['\\', 'r']
    } else if c == '\n' {
        seq!['\\', 'n']
    } else if c == '\\' {
        seq!['\\', '\\']
    } else if c == '\'' {
        seq!['\\', '\'']
    } else if c == '"' {
        seq!['\\', '"']
    } else if ' ' <= c && c <= '~' {
        seq![c]
    } else {
        seq!['\\', 'u', '{'] + hex_seq(c as u32) + seq!['}']
    }
}

/// How one character is escaped inside an escString literal: as in
/// [`escaped_char`], except that a backslash is passed through untouched so
/// that DOT interprets `\n`, `\l`, `\r` escape sequences.
pub open spec fn esc_escaped_char(c: char) -> Seq<char> {
    if c == '\\' {
        seq![c]
    } else {
        escaped_char(c)
    }
}

/// A string with every character default-escaped.
pub open spec fn escaped_default(s: Seq<char>) -> Seq<char> {
    concat_map(s, |c: char| escaped_char(c))
}

/// A string with every character escaped, backslashes passed through.
pub open spec fn escaped_esc(s: Seq<char>) -> Seq<char> {
    concat_map(s, |c: char| esc_escaped_char(c))
}

/// The content between the delimiters of a rendered label.
pub open spec fn rendered_inner(t: Text) -> Seq<char> {
    match t {
        Text::LabelStr(s) => escaped_default(s@),
        Text::EscStr(s) => escaped_esc(s@),
        Text::HtmlStr(s) => s@,
    }
}

/// The full rendering of a label as a DOT literal token: quoted for the two
/// string kinds, between angle brackets for HTML.
pub open spec fn rendered_text(t: Text) -> Seq<char> {
    match t {
        Text::HtmlStr(s) => seq!['<'] + s@ + seq!['>'],
        _ => seq!['"'] + rendered_inner(t) + seq!['"'],
    }
}

/// The normalised (pre-escaped) content of a label: the string `p` such that
/// `EscStr(p)` renders the same content. `EscStr` content is already
/// normalised; `LabelStr` content without a backslash is too; `LabelStr`
/// content with a backslash is default-escaped; `HtmlStr` content passes
/// through unchanged.
pub open spec fn pre_escaped(t: Text) -> Seq<char> {
    match t {
        Text::EscStr(s) => s@,
        Text::LabelStr(s) => if s@.contains('\\') {
            escaped_default(s@)
        } else {
            s@
        },
        Text::HtmlStr(s) => s@,
    }
}

/// The content of the label that [`Text::suffix_line`] builds: the normalised
/// prefix, a blank-line separator (the two escape sequences `\n\n`), and the
/// normalised suffix.
pub open spec fn stacked(prefix: Text, suffix: Text) -> Seq<char> {
    pre_escaped(prefix) + seq!['\\', 'n', '\\', 'n'] + pre_escaped(suffix)
}

/// Relies on `String::push`: appends exactly the given character.
#[verifier::external_body]
pub(crate) fn push_char(out: &mut String, c: char)
    ensures
        final(out)@ == old(out)@ + seq![c],
{
    out.push(c);
}

fn exec_hex_digit(d: u32) -> (r: char)
    requires
        d < 16,
    ensures
        r == hex_digit(d),
{
    if d == 0 {
        '0'
    } else if d == 1 {
        '1'
    } else if d == 2 {
        '2'
    } else if d == 3 {
        '3'
    } else if d == 4 {
        '4'
    } else if d == 5 {
        '5'
    } else if d == 6 {
        '6'
    } else if d == 7 {
        '7'
    } else if d == 8 {
        '8'
    } else if d == 9 {
        '9'
    } else if d == 10 {
        'a'
    } else if d == 11 {
        'b'
    } else if d == 12 {
        'c'
    } else if d == 13 {
        'd'
    } else if d == 14 {
        'e'
    } else {
        'f'
    }
}

fn push_hex(out: &mut String, n: u32)
    ensures
        final(out)@ == old(out)@ + hex_seq(n),
    decreases n,
{
    if n >= 16 {
        push_hex(out, n / 16);
        push_char(out, exec_hex_digit(n % 16));
        assert(old(out)@ + hex_seq(n / 16) + seq![hex_digit(n % 16)] =~= old(out)@ + hex_seq(n));
    } else {
        push_char(out, exec_hex_digit(n));
    }
}

fn push_escaped_char(out: &mut String, c: char)
    ensures
        final(out)@ == old(out)@ + escaped_char(c),
{
    if c == '\t' {
        push_char(out, '\\');
        push_char(out, 't');
    } else if c == '\r' {
        push_char(out, '\\');
        push_char(out, 'r');
    } else if c == '\n' {
        push_char(out, '\\');
        push_char(out, 'n');
    } else if c == '\\' {
        push_char(out, '\\');
        push_char(out, '\\');
    } else if c == '\'' {
        push_char(out, '\\');
        push_char(out, '\'');
    } else if c == '"' {
        push_char(out, '\\');
        push_char(out, '"');
    } else if c >= ' ' && c <= '~' {
        push_char(out, c);
    } else {
        push_char(out, '\\');
        push_char(out, 'u');
        push_char(out, '{');
        push_hex(out, c as u32);
        push_char(out, '}');
    }
    assert(out@ =~= old(out)@ + escaped_char(c));
}

fn push_esc_escaped_char(out: &mut String, c: char)
    ensures
        final(out)@ == old(out)@ + esc_escaped_char(c),
{
    if c == '\\' {
        push_char(out, '\\');
    } else {
        push_escaped_char(out, c);
    }
}

fn push_escaped_default(out: &mut String, s: &str)
    ensures
        final(out)@ == old(out)@ + escaped_default(s@),
{
    let len = s.unicode_len();
    let mut i: usize = 0;
    while i < len
        invariant
            i <= len,
            len == s@.len(),
            out@ == old(out)@ + escaped_default(s@.take(i as int)),
        decreases len - i,
    {
        push_escaped_char(out, s.get_char(i));
        proof {
            lemma_concat_map_take_succ(s@, |c: char| escaped_char(c), i as int);
        }
        i += 1;
    }
    assert(s@.take(len as int) =~= s@);
}

fn push_escaped_esc(out: &mut String, s: &str)
    ensures
        final(out)@ == old(out)@ + escaped_esc(s@),
{
    let len = s.unicode_len();
    let mut i: usize = 0;
    while i < len
        invariant
            i <= len,
            len == s@.len(),
            out@ == old(out)@ + escaped_esc(s@.take(i as int)),
        decreases len - i,
    {
        push_esc_escaped_char(out, s.get_char(i));
        proof {
            lemma_concat_map_take_succ(s@, |c: char| esc_escaped_char(c), i as int);
        }
        i += 1;
    }
    assert(s@.take(len as int) =~= s@);
}

fn contains_backslash(s: &str) -> (r: bool)
    ensures
        r == s@.contains('\\'),
{
    let len = s.unicode_len();
    let mut i: usize = 0;
    while i < len
        invariant
            i <= len,
            len == s@.len(),
            forall|j: int| 0 <= j < i ==> s@[j] != '\\',
        decreases len - i,
    {
        if s.get_char(i) == '\\' {
            return true;
        }
        i += 1;
    }
    false
}

impl Text {
    /// A plain label with the given content.
    pub fn label(s: &str) -> (r: Text)
        ensures
            r is LabelStr,
            r->LabelStr_0@ == s@,
    {
        Text::LabelStr(s.to_owned())
    }

    /// An HTML label with the given content.
    pub fn html(s: &str) -> (r: Text)
        ensures
            r is HtmlStr,
            r->HtmlStr_0@ == s@,
    {
        Text::HtmlStr(s.to_owned())
    }

    /// Renders text as a string suitable for a label in a .dot file.
    /// This includes quotes or suitable delimiters.
    pub fn to_dot_string(&self) -> (r: String)
        ensures
            r@ == rendered_text(*self),
    {
        let mut out = String::new();
        match self {
            Text::LabelStr(s) => {
                push_char(&mut out, '"');
                push_escaped_default(&mut out, s.as_str());
                push_char(&mut out, '"');
            },
            Text::EscStr(s) => {
                push_char(&mut out, '"');
                push_escaped_esc(&mut out, s.as_str());
                push_char(&mut out, '"');
            },
            Text::HtmlStr(s) => {
                push_char(&mut out, '<');
                out.append(s.as_str());
                push_char(&mut out, '>');
            },
        }
        assert(out@ =~= rendered_text(*self));
        out
    }

    /// Decomposes content into a string suitable for making an `EscStr` that
    /// yields the same content as `self` (see [`pre_escaped`]).
    fn pre_escaped_content(self) -> (r: String)
        ensures
            r@ == pre_escaped(self),
    {
        match self {
            Text::EscStr(s) => s,
            Text::LabelStr(s) => {
                if contains_backslash(s.as_str()) {
                    let mut out = String::new();
                    push_escaped_default(&mut out, s.as_str());
                    out
                } else {
                    s
                }
            },
            Text::HtmlStr(s) => s,
        }
    }

    /// Puts `suffix` on a line below this label, with a blank line separator.
    #[must_use]
    pub fn suffix_line(self, suffix: Text) -> (r: Text)
        ensures
            r is EscStr,
            r->EscStr_0@ == stacked(self, suffix),
    {
        let mut prefix = self.pre_escaped_content();
        push_char(&mut prefix, '\\');
        push_char(&mut prefix, 'n');
        push_char(&mut prefix, '\\');
        push_char(&mut prefix, 'n');
        let suffix_content = suffix.pre_escaped_content();
        prefix.append(suffix_content.as_str());
        assert(prefix@ =~= stacked(self, suffix));
        Text::EscStr(prefix)
    }
}

/// A character that the escString escaping passes through unchanged: the
/// backslash, and every printable ASCII character other than the two quote
/// characters.
pub open spec fn esc_passes(c: char) -> bool {
    c == '\\' || (' ' <= c && c <= '~' && c != '"' && c != '\'')
}

proof fn lemma_esc_passes_char(c: char)
    requires
        esc_passes(c),
    ensures
        esc_escaped_char(c) == seq![c],
{
}

/// Every character of a minimal hexadecimal rendering is a digit or a
/// lowercase letter, which escString escaping passes through.
proof fn lemma_hex_seq_passes(n: u32)
    ensures
        forall|i: int| 0 <= i < hex_seq(n).len() ==> esc_passes(#[trigger] hex_seq(n)[i]),
    decreases n,
{
    assert(esc_passes(hex_digit(n % 16)));
    assert(esc_passes(hex_digit(n)));
    if n >= 16 {
        lemma_hex_seq_passes(n / 16);
        assert forall|i: int| 0 <= i < hex_seq(n).len() implies esc_passes(
            #[trigger] hex_seq(n)[i],
        ) by {
            if i < hex_seq(n / 16).len() {
                assert(hex_seq(n)[i] == hex_seq(n / 16)[i]);
            } else {
                assert(hex_seq(n)[i] == hex_digit(n % 16));
            }
        }
    }
}

/// Every character that default-escaping emits for a character other than
/// the quote characters passes through escString escaping unchanged.
proof fn lemma_escaped_char_passes(c: char)
    requires
        c != '"',
        c != '\'',
    ensures
        forall|i: int| 0 <= i < escaped_char(c).len() ==> esc_passes(
            #[trigger] escaped_char(c)[i],
        ),
{
    if !(c == '\t' || c == '\r' || c == '\n' || c == '\\' || (' ' <= c && c <= '~')) {
        lemma_hex_seq_passes(c as u32);
        assert forall|i: int| 0 <= i < escaped_char(c).len() implies esc_passes(
            #[trigger] escaped_char(c)[i],
        ) by {
            let e = seq!['\\', 'u', '{'] + hex_seq(c as u32) + seq!['}'];
            if 3 <= i < 3 + hex_seq(c as u32).len() {
                assert(e[i] == hex_seq(c as u32)[i - 3]);
            }
        }
    }
}

/// escString escaping leaves a wholly passing string unchanged.
proof fn lemma_escaped_esc_identity(s: Seq<char>)
    requires
        forall|i: int| 0 <= i < s.len() ==> esc_passes(#[trigger] s[i]),
    ensures
        escaped_esc(s) == s,
{
    assert forall|i: int| 0 <= i < s.len() implies (|c: char| esc_escaped_char(c))(
        #[trigger] s[i],
    ) == seq![s[i]] by {
        lemma_esc_passes_char(s[i]);
    }
    crate::concat::lemma_concat_map_identity(s, |c: char| esc_escaped_char(c));
}

/// Default-escaping a string without quote characters produces text that
/// escString escaping leaves unchanged.
proof fn lemma_escaped_default_fixpoint(s: Seq<char>)
    requires
        !s.contains('"'),
        !s.contains('\''),
    ensures
        escaped_esc(escaped_default(s)) == escaped_default(s),
    decreases s.len(),
{
    if s.len() == 0 {
        assert(escaped_default(s) =~= Seq::<char>::empty());
        assert(escaped_esc(escaped_default(s)) =~= escaped_default(s));
    } else {
        let c = s[0];
        let rest = s.drop_first();
        assert(!rest.contains('"') && !rest.contains('\'')) by {
            if rest.contains('"') {
                let i = choose|i: int| 0 <= i < rest.len() && rest[i] == '"';
                assert(s[i + 1] == '"');
            }
            if rest.contains('\'') {
                let i = choose|i: int| 0 <= i < rest.len() && rest[i] == '\'';
                assert(s[i + 1] == '\'');
            }
        }
        assert(c != '"' && c != '\'') by {
            assert(s[0] == c);
        }
        lemma_escaped_default_fixpoint(rest);
        lemma_escaped_char_passes(c);
        lemma_escaped_esc_identity(escaped_char(c));
        crate::concat::lemma_concat_map_concat(
            escaped_char(c),
            escaped_default(rest),
            |ch: char| esc_escaped_char(ch),
        );
        assert(escaped_default(s) == escaped_char(c) + escaped_default(rest));
    }
}

/// Whether a label's rendered content can be recovered from its normalised
/// (pre-escaped) content. This holds for every `EscStr`, and for a
/// `LabelStr` unless its content mixes a backslash with a quote character;
/// it never holds for `HtmlStr`, whose rendering is not quoted at all.
pub open spec fn normalizable(t: Text) -> bool {
    match t {
        Text::EscStr(s) => true,
        Text::LabelStr(s) => !s@.contains('\\') || (!s@.contains('"') && !s@.contains('\'')),
        Text::HtmlStr(s) => false,
    }
}

/// The normalisation law behind [`Text::suffix_line`]: for a normalizable
/// label, escString-escaping the normalised content recovers exactly the
/// content that rendering the label itself would produce.
pub proof fn lemma_pre_escaped_renders_same(t: Text)
    requires
        normalizable(t),
    ensures
        escaped_esc(pre_escaped(t)) == rendered_inner(t),
{
    match t {
        Text::EscStr(s) => {},
        Text::LabelStr(s) => {
            if s@.contains('\\') {
                lemma_escaped_default_fixpoint(s@);
            } else {
                assert forall|i: int| 0 <= i < s@.len() implies (|c: char| esc_escaped_char(c))(
                    #[trigger] s@[i],
                ) == (|c: char| escaped_char(c))(s@[i]) by {
                    assert(s@[i] != '\\');
                }
                crate::concat::lemma_concat_map_pointwise(
                    s@,
                    |c: char| esc_escaped_char(c),
                    |c: char| escaped_char(c),
                );
            }
        },
        Text::HtmlStr(s) => {},
    }
}

/// The rendering of a stacked label ([`Text::suffix_line`]): for
/// normalizable labels it is the rendered content of the first, the literal
/// escape sequences `\n\n`, and the rendered content of the second, inside
/// one pair of quotes.
pub proof fn lemma_stack_below_render(a: Text, b: Text)
    requires
        normalizable(a),
        normalizable(b),
    ensures
        escaped_esc(stacked(a, b)) == rendered_inner(a) + seq!['\\', 'n', '\\', 'n']
            + rendered_inner(b),
{
    let sep = seq!['\\', 'n', '\\', 'n'];
    crate::concat::lemma_concat_map_concat(
        pre_escaped(a) + sep,
        pre_escaped(b),
        |c: char| esc_escaped_char(c),
    );
    crate::concat::lemma_concat_map_concat(pre_escaped(a), sep, |c: char| esc_escaped_char(c));
    assert forall|i: int| 0 <= i < sep.len() implies esc_passes(#[trigger] sep[i]) by {}
    lemma_escaped_esc_identity(sep);
    lemma_pre_escaped_renders_same(a);
    lemma_pre_escaped_renders_same(b);
    assert(stacked(a, b) == (pre_escaped(a) + sep) + pre_escaped(b));
}

/// Normalisation is idempotent: a label whose content is already the
/// normalised content of some label normalises to that same content.
pub proof fn lemma_pre_escaped_idempotent(t: Text, p: String)
    requires
        p@ == pre_escaped(t),
    ensures
        pre_escaped(Text::EscStr(p)) == pre_escaped(t),
{
}

/// How one character is escaped for inclusion in a Graphviz HTML label:
/// the four HTML-significant characters become entities, everything else
/// stands for itself.
pub open spec fn html_escaped_char(c: char) -> Seq<char> {
    if c == '&' {
        seq!['&', 'a', 'm', 'p', ';']
    } else if c == '"' {
        seq!['&', 'q', 'u', 'o', 't', ';']
    } else if c == '<' {
        seq!['&', 'l', 't', ';']
    } else if c == '>' {
        seq!['&', 'g', 't', ';']
    } else {
        seq![c]
    }
}

/// A string with every HTML-significant character escaped.
pub open spec fn html_escaped(s: Seq<char>) -> Seq<char> {
    concat_map(s, |c: char| html_escaped_char(c))
}

/// Escape tags in such a way that it is suitable for inclusion in a
/// Graphviz HTML label.
pub fn escape_html(s: &str) -> (r: String)
    ensures
        r@ == html_escaped(s@),
{
    let mut out = String::new();
    let len = s.unicode_len();
    let mut i: usize = 0;
    while i < len
        invariant
            i <= len,
            len == s@.len(),
            out@ == html_escaped(s@.take(i as int)),
        decreases len - i,
    {
        let c = s.get_char(i);
        if c == '&' {
            out.append("&amp;");
            proof {
                reveal_strlit("&amp;");
                assert("&amp;"@ =~= html_escaped_char(c));
            }
        } else if c == '"' {
            out.append("&quot;");
            proof {
                reveal_strlit("&quot;");
                assert("&quot;"@ =~= html_escaped_char(c));
            }
        } else if c == '<' {
            out.append("&lt;");
            proof {
                reveal_strlit("&lt;");
                assert("&lt;"@ =~= html_escaped_char(c));
            }
        } else if c == '>' {
            out.append("&gt;");
            proof {
                reveal_strlit("&gt;");
                assert("&gt;"@ =~= html_escaped_char(c));
            }
        } else {
            push_char(&mut out, c);
        }
        proof {
            lemma_concat_map_take_succ(s@, |c: char| html_escaped_char(c), i as int);
        }
        i += 1;
    }
    assert(s@.take(len as int) =~= s@);
    out
}

/// The graph instance is responsible for providing the DOT compatible
/// identifiers for the nodes and (optionally) rendered labels for the nodes
/// and edges, as well as an identifier for the graph itself.
///
/// Each method besides `graph_id` and `node_id` has a default: nodes fall
/// back to their own identifier as label text, edges and subgraphs to an
/// empty plain label, styles to [`Style::Unstyled`], shapes and colors to
/// absent, arrows to the default (empty) arrow, and the kind to
/// [`Kind::Digraph`].
pub trait Labeller {
    type Node;

    type Edge;

    type Subgraph;

    /// Must return a DOT compatible identifier naming the graph.
    fn graph_id(&self) -> Result<Id, Error>;

    /// Maps `n` to a unique identifier with respect to `self`. The
    /// implementor is responsible for ensuring that the returned name
    /// is a valid DOT identifier.
    fn node_id(&self, n: &Self::Node) -> Result<Id, Error>;

    /// Maps `n` to one of the [graphviz `shape` names][1]. If `None`
    /// is returned, no `shape` attribute is specified.
    ///
    /// [1]: https://www.graphviz.org/content/node-shapes
    fn node_shape(&self, _node: &Self::Node) -> Option<Text> {
        None
    }

    /// Maps `n` to a label that will be used in the rendered output.
    /// The label need not be unique, and may be the empty string; the
    /// default is just the output from `node_id`.
    fn node_label(&self, n: &Self::Node) -> Result<Text, Error> {
        match self.node_id(n) {
            Ok(id) => Ok(Text::label(id.as_slice())),
            Err(e) => Err(e),
        }
    }

    /// Maps `n` to a style that will be used in the rendered output.
    fn node_style(&self, _n: &Self::Node) -> Style {
        Style::Unstyled
    }

    /// Maps `n` to one of the [graphviz `color` names][1]. If `None`
    /// is returned, no `color` attribute is specified.
    ///
    /// [1]: https://graphviz.gitlab.io/_pages/doc/info/colors.html
    fn node_color(&self, _node: &Self::Node) -> Option<Text> {
        None
    }

    /// Maps `e` to arrow style that will be used on the end of an edge.
    /// Defaults to default arrow style.
    fn edge_end_arrow(&self, _e: &Self::Edge) -> Arrow {
        Arrow { arrows: Vec::new() }
    }

    /// Maps `e` to arrow style that will be used on the start of an edge.
    /// Defaults to default arrow style.
    fn edge_start_arrow(&self, _e: &Self::Edge) -> Arrow {
        Arrow { arrows: Vec::new() }
    }

    /// Maps `e` to a label that will be used in the rendered output.
    /// The label need not be unique, and may be the empty string; the
    /// default is in fact the empty string.
    fn edge_label(&self, _e: &Self::Edge) -> Text {
        Text::label("")
    }

    /// Maps `e` to a style that will be used in the rendered output.
    fn edge_style(&self, _e: &Self::Edge) -> Style {
        Style::Unstyled
    }

    /// Maps `e` to one of the [graphviz `color` names][1]. If `None`
    /// is returned, no `color` attribute is specified.
    ///
    /// [1]: https://graphviz.gitlab.io/_pages/doc/info/colors.html
    fn edge_color(&self, _e: &Self::Edge) -> Option<Text> {
        None
    }

    /// Maps `s` to a unique subgraph identifier.
    /// Prefix this identifier by `cluster_` to draw this subgraph in its own
    /// distinct rectangle.
    fn subgraph_id(&self, _s: &Self::Subgraph) -> Option<Id> {
        None
    }

    /// Maps `s` to the corresponding subgraph label.
    fn subgraph_label(&self, _s: &Self::Subgraph) -> Text {
        Text::label("")
    }

    /// Maps `s` to the corresponding subgraph style (defaults to
    /// [`Style::Unstyled`]).
    fn subgraph_style(&self, _s: &Self::Subgraph) -> Style {
        Style::Unstyled
    }

    /// Maps `s` to the corresponding subgraph shape.
    /// If `None` is returned (default), no `shape` attribute is specified.
    fn subgraph_shape(&self, _s: &Self::Subgraph) -> Option<Text> {
        None
    }

    /// Maps `s` to one of the [graphviz `color` names][1]. If `None`
    /// is returned, no `color` attribute is specified.
    ///
    /// [1]: https://graphviz.gitlab.io/_pages/doc/info/colors.html
    fn subgraph_color(&self, _s: &Self::Subgraph) -> Option<Text> {
        None
    }

    /// The kind of graph, defaults to `Kind::Digraph`.
    fn kind(&self) -> Kind {
        Kind::Digraph
    }
}

} // verus!
