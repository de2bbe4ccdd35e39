use dot::arrow::Shape;
use dot::label::Text;
use dot::{Arrow, Fill, Kind, Side, Style};

#[test]
fn valid_ids_render_their_input() {
    for name in ["hello", "_x", "A9_z", "n", "Zz_09"] {
        let id = dot::Id::new(name).unwrap();
        assert_eq!(id.as_slice(), name);
    }
}

#[test]
fn invalid_ids_are_rejected() {
    for name in ["", "9x", "a b", "a[", "a\"b", "a-b", "Weird!", " a", "a]"] {
        assert!(matches!(dot::Id::new(name), Err(dot::Error::InvalidId)));
    }
}

#[test]
fn plain_label_escapes_backslashes_and_quotes() {
    assert_eq!(Text::label("a\\b").to_dot_string(), "\"a\\\\b\"");
    assert_eq!(Text::label("say \"hi\"").to_dot_string(), "\"say \\\"hi\\\"\"");
    assert_eq!(Text::label("line\nbreak").to_dot_string(), "\"line\\nbreak\"");
    assert_eq!(Text::label("").to_dot_string(), "\"\"");
}

#[test]
fn plain_label_escapes_non_printable_characters() {
    assert_eq!(Text::label("\u{7f}").to_dot_string(), "\"\\u{7f}\"");
    assert_eq!(Text::label("é").to_dot_string(), "\"\\u{e9}\"");
    assert_eq!(Text::label("\u{1}").to_dot_string(), "\"\\u{1}\"");
}

#[test]
fn esc_label_passes_backslashes_through() {
    assert_eq!(
        Text::EscStr("left\\lright\\r".to_string()).to_dot_string(),
        "\"left\\lright\\r\""
    );
    assert_eq!(
        Text::EscStr("quote \"q\"".to_string()).to_dot_string(),
        "\"quote \\\"q\\\"\""
    );
}

#[test]
fn html_label_renders_verbatim_in_angle_brackets() {
    assert_eq!(
        Text::html("<table><tr/></table>").to_dot_string(),
        "<<table><tr/></table>>"
    );
}

#[test]
fn suffix_line_stacks_normalised_content() {
    let a = Text::label("ab");
    let b = Text::label("c");
    let stacked = a.suffix_line(b);
    assert_eq!(stacked.to_dot_string(), "\"ab\\n\\nc\"");

    let a = Text::EscStr("a\\l".to_string());
    let b = Text::EscStr("b".to_string());
    assert_eq!(a.suffix_line(b).to_dot_string(), "\"a\\l\\n\\nb\"");

    // A plain label holding a backslash is normalised by default-escaping
    // before stacking.
    let a = Text::label("a\\b");
    let b = Text::label("c");
    assert_eq!(a.suffix_line(b).to_dot_string(), "\"a\\\\b\\n\\nc\"");
}

#[test]
fn suffix_line_twice_appends_both_suffixes() {
    let a = Text::label("x");
    let b = Text::label("y");
    let c = Text::label("z");
    let stacked = a.suffix_line(b).suffix_line(c);
    assert_eq!(stacked.to_dot_string(), "\"x\\n\\ny\\n\\nz\"");
}

#[test]
fn escape_html_escapes_the_four_significant_characters() {
    assert_eq!(
        dot::escape_html("<a & \"b\">"),
        "&lt;a &amp; &quot;b&quot;&gt;"
    );
    assert_eq!(dot::escape_html("plain"), "plain");
    assert_eq!(dot::escape_html(""), "");
}

#[test]
fn styles_render_their_names() {
    assert_eq!(Style::Unstyled.as_slice(), "");
    assert_eq!(Style::Solid.as_slice(), "solid");
    assert_eq!(Style::Dashed.as_slice(), "dashed");
    assert_eq!(Style::Dotted.as_slice(), "dotted");
    assert_eq!(Style::Bold.as_slice(), "bold");
    assert_eq!(Style::Rounded.as_slice(), "rounded");
    assert_eq!(Style::Diagonals.as_slice(), "diagonals");
    assert_eq!(Style::Filled.as_slice(), "filled");
    assert_eq!(Style::Striped.as_slice(), "striped");
    assert_eq!(Style::Wedged.as_slice(), "wedged");
}

#[test]
fn kinds_render_keyword_and_edgeop() {
    assert_eq!(Kind::Digraph.keyword(), "digraph");
    assert_eq!(Kind::Graph.keyword(), "graph");
}

#[test]
fn fills_and_sides_render_their_prefixes() {
    assert_eq!(Fill::Open.as_slice(), "o");
    assert_eq!(Fill::Filled.as_slice(), "");
    assert_eq!(Side::Left.as_slice(), "l");
    assert_eq!(Side::Right.as_slice(), "r");
    assert_eq!(Side::Both.as_slice(), "");
}

#[test]
fn shapes_render_modifiers_then_name() {
    assert_eq!(Shape::NoArrow.to_dot_string(), "none");
    assert_eq!(Shape::normal().to_dot_string(), "normal");
    assert_eq!(Shape::Normal(Fill::Open, Side::Left).to_dot_string(), "olnormal");
    assert_eq!(Shape::Boxed(Fill::Open, Side::Right).to_dot_string(), "orbox");
    assert_eq!(Shape::Crow(Side::Left).to_dot_string(), "lcrow");
    assert_eq!(Shape::Curve(Side::Both).to_dot_string(), "curve");
    assert_eq!(Shape::ICurve(Fill::Filled, Side::Both).to_dot_string(), "icurve");
    assert_eq!(Shape::Diamond(Fill::Open, Side::Both).to_dot_string(), "odiamond");
    assert_eq!(Shape::Dot(Fill::Open).to_dot_string(), "odot");
    assert_eq!(Shape::Inv(Fill::Filled, Side::Left).to_dot_string(), "linv");
    assert_eq!(Shape::Tee(Side::Right).to_dot_string(), "rtee");
    assert_eq!(Shape::Vee(Side::Both).to_dot_string(), "vee");
}

#[test]
fn shape_constructors_match_their_names() {
    assert_eq!(Shape::none().to_dot_string(), "none");
    assert_eq!(Shape::boxed().to_dot_string(), "box");
    assert_eq!(Shape::crow().to_dot_string(), "crow");
    assert_eq!(Shape::curve().to_dot_string(), "curve");
    assert_eq!(Shape::icurve().to_dot_string(), "icurve");
    assert_eq!(Shape::diamond().to_dot_string(), "diamond");
    assert_eq!(Shape::dot().to_dot_string(), "dot");
    assert_eq!(Shape::inv().to_dot_string(), "inv");
    assert_eq!(Shape::tee().to_dot_string(), "tee");
    assert_eq!(Shape::vee().to_dot_string(), "vee");
}

#[test]
fn arrows_concatenate_their_shapes() {
    assert_eq!(Arrow::default().to_dot_string(), "");
    assert_eq!(Arrow::none().to_dot_string(), "none");
    assert_eq!(Arrow::normal().to_dot_string(), "normal");
    let double = Arrow {
        arrows: vec![Shape::crow(), Shape::Vee(Side::Left)],
    };
    assert_eq!(double.to_dot_string(), "crowlvee");
}
