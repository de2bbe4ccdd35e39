use vstd::prelude::*;

verus! {

/// The concatenation of `f` applied to each element of `s` in order: the
/// backbone of every "render a sequence of pieces" specification in this
/// crate.
pub open spec fn concat_map<T>(s: Seq<T>, f: spec_fn(T) -> Seq<char>) -> Seq<char>
    decreases s.len(),
{
    if s.len() == 0 {
        Seq::empty()
    } else {
        f(s[0]) + concat_map(s.drop_first(), f)
    }
}

pub proof fn lemma_concat_map_push<T>(s: Seq<T>, f: spec_fn(T) -> Seq<char>, x: T)
    ensures
        concat_map(s.push(x), f) == concat_map(s, f) + f(x),
    decreases s.len(),
{
    if s.len() == 0 {
        assert(s.push(x).drop_first() =~= Seq::<T>::empty());
        assert(s.push(x)[0] == x);
        assert(concat_map(s.push(x), f) == f(x) + concat_map(Seq::<T>::empty(), f));
        assert(concat_map(s.push(x), f) =~= concat_map(s, f) + f(x));
    } else {
        assert(s.push(x).drop_first() =~= s.drop_first().push(x));
        lemma_concat_map_push(s.drop_first(), f, x);
        assert(concat_map(s.push(x), f) =~= concat_map(s, f) + f(x));
    }
}

pub proof fn lemma_concat_map_take_succ<T>(s: Seq<T>, f: spec_fn(T) -> Seq<char>, i: int)
    requires
        0 <= i < s.len(),
    ensures
        concat_map(s.take(i + 1), f) == concat_map(s.take(i), f) + f(s[i]),
{
    assert(s.take(i + 1) =~= s.take(i).push(s[i]));
    lemma_concat_map_push(s.take(i), f, s[i]);
}

pub proof fn lemma_concat_map_concat<T>(s1: Seq<T>, s2: Seq<T>, f: spec_fn(T) -> Seq<char>)
    ensures
        concat_map(s1 + s2, f) == concat_map(s1, f) + concat_map(s2, f),
    decreases s1.len(),
{
    if s1.len() == 0 {
        assert(s1 + s2 =~= s2);
        assert(concat_map(s1 + s2, f) =~= concat_map(s1, f) + concat_map(s2, f));
    } else {
        assert((s1 + s2).drop_first() =~= s1.drop_first() + s2);
        lemma_concat_map_concat(s1.drop_first(), s2, f);
        assert(concat_map(s1 + s2, f) =~= concat_map(s1, f) + concat_map(s2, f));
    }
}

/// A function that maps every element of `s` to its own singleton leaves the
/// sequence unchanged.
pub proof fn lemma_concat_map_identity(s: Seq<char>, f: spec_fn(char) -> Seq<char>)
    requires
        forall|i: int| 0 <= i < s.len() ==> f(#[trigger] s[i]) == seq![s[i]],
    ensures
        concat_map(s, f) == s,
    decreases s.len(),
{
    if s.len() == 0 {
        assert(concat_map(s, f) =~= s);
    } else {
        lemma_concat_map_identity(s.drop_first(), f);
        assert(concat_map(s, f) =~= s);
    }
}

/// Sequences whose elements map pairwise to the same pieces concatenate to
/// the same text.
pub proof fn lemma_concat_map_congruence<T>(
    s1: Seq<T>,
    s2: Seq<T>,
    f: spec_fn(T) -> Seq<char>,
    g: spec_fn(T) -> Seq<char>,
)
    requires
        s1.len() == s2.len(),
        forall|i: int| 0 <= i < s1.len() ==> f(#[trigger] s1[i]) == g(#[trigger] s2[i]),
    ensures
        concat_map(s1, f) == concat_map(s2, g),
    decreases s1.len(),
{
    if s1.len() != 0 {
        lemma_concat_map_congruence(s1.drop_first(), s2.drop_first(), f, g);
    }
}

/// Functions that agree on every element of `s` concatenate to the same text.
pub proof fn lemma_concat_map_pointwise<T>(s: Seq<T>, f: spec_fn(T) -> Seq<char>, g: spec_fn(
    T,
) -> Seq<char>)
    requires
        forall|i: int| 0 <= i < s.len() ==> f(#[trigger] s[i]) == g(s[i]),
    ensures
        concat_map(s, f) == concat_map(s, g),
    decreases s.len(),
{
    if s.len() != 0 {
        lemma_concat_map_pointwise(s.drop_first(), f, g);
    }
}

} // verus!
