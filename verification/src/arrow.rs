use vstd::prelude::*;

use crate::concat::{concat_map, lemma_concat_map_take_succ};
use crate::fill::{fill_name, Fill};
use crate::side::{side_name, Side};

verus! {

/// This enumeration represents all possible arrow edge
/// as defined in [graphviz documentation](http://www.graphviz.org/content/arrow-shapes).
#[derive(Clone, Copy, Hash, PartialEq, Eq, Structural)]
pub enum Shape {
    /// No arrow will be displayed
    NoArrow,
    /// Arrow that ends in a triangle. Basically a normal arrow.
    /// NOTE: there is error in official documentation, this supports both fill and side clipping
    Normal(Fill, Side),
    /// Arrow ending in a small square box
    Boxed(Fill, Side),
    /// Arrow ending in a three branching lines also called crow's foot
    Crow(Side),
    /// Arrow ending in a curve
    Curve(Side),
    /// Arrow ending in an inverted curve
    ICurve(Fill, Side),
    /// Arrow ending in an diamond shaped rectangular shape.
    Diamond(Fill, Side),
    /// Arrow ending in a circle.
    Dot(Fill),
    /// Arrow ending in an inverted triangle.
    Inv(Fill, Side),
    /// Arrow ending with a T shaped arrow.
    Tee(Side),
    /// Arrow ending with a V shaped arrow.
    Vee(Side),
}

/// The canonical textual rendering of one arrow shape: its fill modifier (if
/// the shape takes one), then its clipping side (if it takes one), then the
/// shape's name; `NoArrow` renders as the literal `none`.
pub open spec fn rendered_shape(sh: Shape) -> Seq<char> {
    match sh {
        Shape::NoArrow => "none"@,
        Shape::Normal(f, s) => fill_name(f) + side_name(s) + "normal"@,
        Shape::Boxed(f, s) => fill_name(f) + side_name(s) + "box"@,
        Shape::Crow(s) => side_name(s) + "crow"@,
        Shape::Curve(s) => side_name(s) + "curve"@,
        Shape::ICurve(f, s) => fill_name(f) + side_name(s) + "icurve"@,
        Shape::Diamond(f, s) => fill_name(f) + side_name(s) + "diamond"@,
        Shape::Dot(f) => fill_name(f) + "dot"@,
        Shape::Inv(f, s) => fill_name(f) + side_name(s) + "inv"@,
        Shape::Tee(s) => side_name(s) + "tee"@,
        Shape::Vee(s) => side_name(s) + "vee"@,
    }
}

impl Shape {
    /// Constructor which returns no arrow.
    pub fn none() -> (r: Self)
        ensures
            r == Shape::NoArrow,
    {
        Shape::NoArrow
    }

    /// Constructor which returns normal arrow.
    pub fn normal() -> (r: Self)
        ensures
            r == Shape::Normal(Fill::Filled, Side::Both),
    {
        Shape::Normal(Fill::Filled, Side::Both)
    }

    /// Constructor which returns a regular box arrow.
    pub fn boxed() -> (r: Self)
        ensures
            r == Shape::Boxed(Fill::Filled, Side::Both),
    {
        Shape::Boxed(Fill::Filled, Side::Both)
    }

    /// Constructor which returns a regular crow arrow.
    pub fn crow() -> (r: Self)
        ensures
            r == Shape::Crow(Side::Both),
    {
        Shape::Crow(Side::Both)
    }

    /// Constructor which returns a regular curve arrow.
    pub fn curve() -> (r: Self)
        ensures
            r == Shape::Curve(Side::Both),
    {
        Shape::Curve(Side::Both)
    }

    /// Constructor which returns an inverted curve arrow.
    pub fn icurve() -> (r: Self)
        ensures
            r == Shape::ICurve(Fill::Filled, Side::Both),
    {
        Shape::ICurve(Fill::Filled, Side::Both)
    }

    /// Constructor which returns a diamond arrow.
    pub fn diamond() -> (r: Self)
        ensures
            r == Shape::Diamond(Fill::Filled, Side::Both),
    {
        Shape::Diamond(Fill::Filled, Side::Both)
    }

    /// Constructor which returns a circle shaped arrow.
    pub fn dot() -> (r: Self)
        ensures
            r == Shape::Dot(Fill::Filled),
    {
        Shape::Dot(Fill::Filled)
    }

    /// Constructor which returns an inverted triangle arrow.
    pub fn inv() -> (r: Self)
        ensures
            r == Shape::Inv(Fill::Filled, Side::Both),
    {
        Shape::Inv(Fill::Filled, Side::Both)
    }

    /// Constructor which returns a T shaped arrow.
    pub fn tee() -> (r: Self)
        ensures
            r == Shape::Tee(Side::Both),
    {
        Shape::Tee(Side::Both)
    }

    /// Constructor which returns a V shaped arrow.
    pub fn vee() -> (r: Self)
        ensures
            r == Shape::Vee(Side::Both),
    {
        Shape::Vee(Side::Both)
    }

    /// The text this shape renders as.
    pub fn to_dot_string(&self) -> (r: String)
        ensures
            r@ == rendered_shape(*self),
    {
        let mut out = String::new();
        push_shape(&mut out, *self);
        out
    }
}

fn push2(out: &mut String, a: &str, b: &str)
    ensures
        final(out)@ == old(out)@ + (a@ + b@),
{
    out.append(a);
    out.append(b);
    assert(out@ =~= old(out)@ + (a@ + b@));
}

fn push3(out: &mut String, a: &str, b: &str, c: &str)
    ensures
        final(out)@ == old(out)@ + (a@ + b@ + c@),
{
    out.append(a);
    out.append(b);
    out.append(c);
    assert(out@ =~= old(out)@ + (a@ + b@ + c@));
}


fn push_shape(out: &mut String, sh: Shape)
    ensures
        final(out)@ == old(out)@ + rendered_shape(sh),
{
    match sh {
        Shape::NoArrow => out.append("none"),
        Shape::Normal(f, s) => push3(out, f.as_slice(), s.as_slice(), "normal"),
        Shape::Boxed(f, s) => push3(out, f.as_slice(), s.as_slice(), "box"),
        Shape::Crow(s) => push2(out, s.as_slice(), "crow"),
        Shape::Curve(s) => push2(out, s.as_slice(), "curve"),
        Shape::ICurve(f, s) => push3(out, f.as_slice(), s.as_slice(), "icurve"),
        Shape::Diamond(f, s) => push3(out, f.as_slice(), s.as_slice(), "diamond"),
        Shape::Dot(f) => push2(out, f.as_slice(), "dot"),
        Shape::Inv(f, s) => push3(out, f.as_slice(), s.as_slice(), "inv"),
        Shape::Tee(s) => push2(out, s.as_slice(), "tee"),
        Shape::Vee(s) => push2(out, s.as_slice(), "vee"),
    }
}

/// This structure holds all information that can describe an arrow connected to
/// either start or end of an edge.
///
/// The empty sequence of shapes is the "default/unset" arrow; it is distinct
/// from a sequence containing one `NoArrow` shape, which explicitly renders
/// the literal `none`.
#[derive(Clone, Hash, PartialEq, Eq)]
pub struct Arrow {
    pub arrows: Vec<Shape>,
}

/// The canonical textual rendering of an arrow: the concatenation of each
/// shape's rendering.
pub open spec fn rendered_arrow(a: Arrow) -> Seq<char> {
    concat_map(a.arrows@, |sh: Shape| rendered_shape(sh))
}

/// A default arrow is one with no shapes at all; it never triggers an arrow
/// attribute in the output. (Default-ness is "sequence is empty", not
/// "sequence renders to the empty string".)
pub open spec fn arrow_is_default(a: Arrow) -> bool {
    a.arrows@.len() == 0
}

impl Default for Arrow {
    /// The default arrow: no shapes.
    fn default() -> (r: Self)
        ensures
            arrow_is_default(r),
    {
        Arrow { arrows: Vec::new() }
    }
}

impl Arrow {
    /// Return `true` if this is a default arrow.
    pub(crate) fn is_default(&self) -> (r: bool)
        ensures
            r == arrow_is_default(*self),
    {
        self.arrows.len() == 0
    }

    /// Arrow constructor which returns an explicitly empty arrow.
    pub fn none() -> (r: Self)
        ensures
            r.arrows@ == seq![Shape::NoArrow],
    {
        let r = Arrow { arrows: vec![Shape::NoArrow] };
        assert(r.arrows@ =~= seq![Shape::NoArrow]);
        r
    }

    /// Arrow constructor which returns a regular triangle arrow, without modifiers
    pub fn normal() -> (r: Self)
        ensures
            r.arrows@ == seq![Shape::Normal(Fill::Filled, Side::Both)],
    {
        let r = Arrow { arrows: vec![Shape::normal()] };
        assert(r.arrows@ =~= seq![Shape::Normal(Fill::Filled, Side::Both)]);
        r
    }

    /// Arrow constructor which returns an arrow created by a given Shape.
    pub fn from_arrow(arrow: Shape) -> (r: Self)
        ensures
            r.arrows@ == seq![arrow],
    {
        let r = Arrow { arrows: vec![arrow] };
        assert(r.arrows@ =~= seq![arrow]);
        r
    }

    /// The text this arrow renders as.
    pub fn to_dot_string(&self) -> (r: String)
        ensures
            r@ == rendered_arrow(*self),
    {
        let mut out = String::new();
        push_arrow(&mut out, self);
        out
    }
}

pub(crate) fn push_arrow(out: &mut String, a: &Arrow)
    ensures
        final(out)@ == old(out)@ + rendered_arrow(*a),
{
    let len = a.arrows.len();
    let mut i: usize = 0;
    while i < len
        invariant
            i <= len,
            len == a.arrows@.len(),
            out@ == old(out)@ + concat_map(a.arrows@.take(i as int), |sh: Shape| rendered_shape(sh)),
        decreases len - i,
    {
        push_shape(out, a.arrows[i]);
        proof {
            lemma_concat_map_take_succ(a.arrows@, |sh: Shape| rendered_shape(sh), i as int);
        }
        i += 1;
    }
    assert(a.arrows@.take(len as int) =~= a.arrows@);
}

} // verus!
