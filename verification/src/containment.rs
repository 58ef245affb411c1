//! Substring containment for character sequences, used to state what a
//! rendered document shows.

use vstd::prelude::*;

verus! {

/// True when `needle` occurs contiguously somewhere in `hay`.
pub open spec fn contains_seq(hay: Seq<char>, needle: Seq<char>) -> bool {
    exists|i: int|
        0 <= i && i + needle.len() <= hay.len() && #[trigger] hay.subrange(i, i + needle.len())
            == needle
}

/// `t` occurs in `a + t + b`, right after `a`.
pub proof fn lemma_contains_here(a: Seq<char>, t: Seq<char>, b: Seq<char>)
    ensures
        contains_seq(a + t + b, t),
{
    let h = a + t + b;
    let i = a.len() as int;
    assert(h.subrange(i, i + t.len()) =~= t);
}

/// `t` occurs at the start of `t + b`.
pub proof fn lemma_contains_prefix(t: Seq<char>, b: Seq<char>)
    ensures
        contains_seq(t + b, t),
{
    let h = t + b;
    let i: int = 0;
    assert(h.subrange(i, i + t.len()) =~= t);
}

/// `t` occurs at the end of `a + t`.
pub proof fn lemma_contains_suffix(a: Seq<char>, t: Seq<char>)
    ensures
        contains_seq(a + t, t),
{
    let h = a + t;
    let i = a.len() as int;
    assert(h.subrange(i, i + t.len()) =~= t);
}

/// An occurrence survives extending the haystack on the left.
pub proof fn lemma_contains_extend_left(a: Seq<char>, h: Seq<char>, t: Seq<char>)
    requires
        contains_seq(h, t),
    ensures
        contains_seq(a + h, t),
{
    let i = choose|i: int|
        0 <= i && i + t.len() <= h.len() && #[trigger] h.subrange(i, i + t.len()) == t;
    assert((a + h).subrange(a.len() + i, a.len() + i + t.len()) =~= h.subrange(i, i + t.len()));
}

/// An occurrence survives extending the haystack on the right.
pub proof fn lemma_contains_extend_right(h: Seq<char>, b: Seq<char>, t: Seq<char>)
    requires
        contains_seq(h, t),
    ensures
        contains_seq(h + b, t),
{
    let i = choose|i: int|
        0 <= i && i + t.len() <= h.len() && #[trigger] h.subrange(i, i + t.len()) == t;
    assert((h + b).subrange(i, i + t.len()) =~= h.subrange(i, i + t.len()));
}

/// Containment is transitive through an intermediate sequence.
pub proof fn lemma_contains_trans(h: Seq<char>, m: Seq<char>, t: Seq<char>)
    requires
        contains_seq(h, m),
        contains_seq(m, t),
    ensures
        contains_seq(h, t),
{
    let i = choose|i: int|
        0 <= i && i + m.len() <= h.len() && #[trigger] h.subrange(i, i + m.len()) == m;
    let j = choose|j: int|
        0 <= j && j + t.len() <= m.len() && #[trigger] m.subrange(j, j + t.len()) == t;
    assert(h.subrange(i + j, i + j + t.len()) =~= m.subrange(j, j + t.len()));
}

} // verus!
