use vstd::prelude::*;

verus! {

/// Arrow modifier that determines if the shape is empty or filled.
#[derive(Clone, Copy, Hash, PartialEq, Eq, Structural)]
pub enum Fill {
    Open,
    Filled,
}

/// The canonical textual rendering of a fill modifier: `Open` renders as the
/// prefix `o`, `Filled` as nothing.
pub open spec fn fill_name(f: Fill) -> Seq<char> {
    match f {
        Fill::Open => "o"@,
        Fill::Filled => Seq::empty(),
    }
}

impl Fill {
    /// The text this fill modifier renders as.
    pub fn as_slice(self) -> (r: &'static str)
        ensures
            r@ == fill_name(self),
    {
        proof {
            reveal_strlit("");
            assert(""@ =~= Seq::<char>::empty());
        }
        match self {
            Fill::Open => "o",
            Fill::Filled => "",
        }
    }
}

} // verus!
