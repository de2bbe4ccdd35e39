use vstd::prelude::*;

verus! {

/// Arrow modifier that determines if the shape is clipped.
/// For example `Side::Left` means only the left side is visible.
///
/// `Both` means unclipped and renders as nothing; `Left` and `Right` render
/// as the prefixes `l` and `r`.
#[derive(Clone, Copy, Hash, PartialEq, Eq, Structural)]
pub enum Side {
    Left,
    Right,
    Both,
}

/// The canonical textual rendering of a clipping side.
pub open spec fn side_name(s: Side) -> Seq<char> {
    match s {
        Side::Left => "l"@,
        Side::Right => "r"@,
        Side::Both => Seq::empty(),
    }
}

impl Side {
    /// The text this clipping side renders as.
    pub fn as_slice(self) -> (r: &'static str)
        ensures
            r@ == side_name(self),
    {
        proof {
            reveal_strlit("");
            assert(""@ =~= Seq::<char>::empty());
        }
        match self {
            Side::Left => "l",
            Side::Right => "r",
            Side::Both => "",
        }
    }
}

} // verus!
