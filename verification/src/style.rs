use vstd::prelude::*;

verus! {

/// The style for a node or edge.
/// See <https://www.graphviz.org/doc/info/attrs.html#k:style> for descriptions.
/// Note that some of these are not valid for edges.
///
/// `Unstyled` renders as the empty string and is treated as "absent": an
/// `Unstyled` style never produces a `style` attribute in the output.
#[derive(Copy, Clone, PartialEq, Eq, Structural, Debug)]
pub enum Style {
    Unstyled,
    Solid,
    Dashed,
    Dotted,
    Bold,
    Rounded,
    Diagonals,
    Filled,
    Striped,
    Wedged,
}

/// The canonical textual rendering of a style; `Unstyled` renders as empty.
pub open spec fn style_name(s: Style) -> Seq<char> {
    match s {
        Style::Unstyled => Seq::empty(),
        Style::Solid => "solid"@,
        Style::Dashed => "dashed"@,
        Style::Dotted => "dotted"@,
        Style::Bold => "bold"@,
        Style::Rounded => "rounded"@,
        Style::Diagonals => "diagonals"@,
        Style::Filled => "filled"@,
        Style::Striped => "striped"@,
        Style::Wedged => "wedged"@,
    }
}

impl Style {
    /// The text this style renders as.
    pub fn as_slice(self) -> (r: &'static str)
        ensures
            r@ == style_name(self),
    {
        proof {
            reveal_strlit("");
            assert(""@ =~= Seq::<char>::empty());
        }
        match self {
            Style::Unstyled => "",
            Style::Solid => "solid",
            Style::Dashed => "dashed",
            Style::Dotted => "dotted",
            Style::Bold => "bold",
            Style::Rounded => "rounded",
            Style::Diagonals => "diagonals",
            Style::Filled => "filled",
            Style::Striped => "striped",
            Style::Wedged => "wedged",
        }
    }
}

} // verus!
