//! Cutting a text at a separator, and joining the pieces again.

use vstd::prelude::*;
use crate::text::{slice_of, views};

verus! {

/// Position of the first `c` in `s`; `s.len()` when `s` holds none.
pub open spec fn find(s: Seq<char>, c: char) -> int
    decreases s.len(),
{
    if s.len() == 0 {
        0
    } else if s[0] == c {
        0
    } else {
        1 + find(s.drop_first(), c)
    }
}

/// The segments of `s` between occurrences of `sep`. There is always at
/// least one segment, and a trailing `sep` yields a final empty segment.
pub open spec fn split(s: Seq<char>, sep: char) -> Seq<Seq<char>>
    decreases s.len(),
{
    let i = find(s, sep);
    if 0 <= i < s.len() {
        seq![s.take(i)] + split(s.skip(i + 1), sep)
    } else {
        seq![s]
    }
}

/// The parts in order, with `sep` between each two neighbours.
pub open spec fn join(parts: Seq<Seq<char>>, sep: Seq<char>) -> Seq<char>
    decreases parts.len(),
{
    if parts.len() == 0 {
        Seq::empty()
    } else if parts.len() == 1 {
        parts[0]
    } else {
        join(parts.drop_last(), sep) + sep + parts.last()
    }
}

/// `find` returns the least position that holds `c`, or the length.
pub proof fn lemma_find(s: Seq<char>, c: char)
    ensures
        0 <= find(s, c) <= s.len(),
        forall|j: int| 0 <= j < find(s, c) ==> s[j] != c,
        find(s, c) < s.len() ==> s[find(s, c)] == c,
    decreases s.len(),
{
    if s.len() > 0 && s[0] != c {
        let t = s.drop_first();
        lemma_find(t, c);
        assert forall|j: int| 0 <= j < find(s, c) implies s[j] != c by {
            if j > 0 {
                assert(s[j] == t[j - 1]);
            }
        }
    }
}

/// A position with no `c` before it, which holds `c` or is the length, is
/// the one `find` returns.
pub proof fn lemma_find_is(s: Seq<char>, c: char, i: int)
    requires
        0 <= i <= s.len(),
        forall|j: int| 0 <= j < i ==> s[j] != c,
        i < s.len() ==> s[i] == c,
    ensures
        find(s, c) == i,
{
    lemma_find(s, c);
}

/// `split` yields at least one segment, and no segment holds `sep`.
pub proof fn lemma_split(s: Seq<char>, sep: char)
    ensures
        split(s, sep).len() >= 1,
        forall|k: int| 0 <= k < split(s, sep).len() ==> !(#[trigger] split(s, sep)[k]).contains(sep),
    decreases s.len(),
{
    lemma_find(s, sep);
    let i = find(s, sep);
    if 0 <= i < s.len() {
        lemma_split(s.skip(i + 1), sep);
    }
}

/// Joining with a part put in front.
pub proof fn lemma_join_front(first: Seq<char>, rest: Seq<Seq<char>>, sep: Seq<char>)
    requires
        rest.len() >= 1,
    ensures
        join(seq![first] + rest, sep) == first + sep + join(rest, sep),
    decreases rest.len(),
{
    let all = seq![first] + rest;
    assert(all.drop_last() =~= seq![first] + rest.drop_last());
    if rest.len() == 1 {
        assert(join(all.drop_last(), sep) == first);
    } else {
        lemma_join_front(first, rest.drop_last(), sep);
    }
}

/// Splitting a text at a separator and joining the segments with that
/// separator gives the text back.
pub proof fn lemma_join_split(s: Seq<char>, sep: char)
    ensures
        join(split(s, sep), seq![sep]) == s,
    decreases s.len(),
{
    lemma_find(s, sep);
    let i = find(s, sep);
    if 0 <= i < s.len() {
        let tail = s.skip(i + 1);
        lemma_join_split(tail, sep);
        lemma_join_front(s.take(i), split(tail, sep), seq![sep]);
    }
}

/// Position of the first `c` at or after `from`, relative to `from`.
pub(crate) fn find_from(v: &Vec<char>, from: usize, c: char) -> (i: usize)
    requires
        from <= v.len(),
    ensures
        i == find(v@.skip(from as int), c),
        from + i <= v.len(),
{
    let mut i: usize = from;
    while i < v.len() && v[i] != c
        invariant
            from <= i <= v.len(),
            forall|j: int| from <= j < i ==> v@[j] != c,
        decreases v.len() - i,
    {
        i += 1;
    }
    proof {
        lemma_find_is(v@.skip(from as int), c, i - from);
    }
    i - from
}

/// The segments of `v` between occurrences of `sep`.
pub fn split_chars(v: &Vec<char>, sep: char) -> (parts: Vec<Vec<char>>)
    ensures
        views(parts@) == split(v@, sep),
{
    let mut parts: Vec<Vec<char>> = Vec::new();
    let mut start: usize = 0;
    proof {
        assert(v@.skip(0) =~= v@);
    }
    loop
        invariant_except_break
            start <= v.len(),
            split(v@, sep) == views(parts@) + split(v@.skip(start as int), sep),
        ensures
            views(parts@) == split(v@, sep),
        decreases v.len() - start,
    {
        let ghost rest = v@.skip(start as int);
        let i = find_from(v, start, sep);
        let segment = slice_of(v, start, start + i);
        proof {
            assert(rest.take(i as int) =~= v@.subrange(start as int, start + i));
        }
        parts.push(segment);
        if start + i < v.len() {
            proof {
                assert(rest.skip(i + 1) =~= v@.skip(start + i + 1));
            }
            start = start + i + 1;
        } else {
            break;
        }
    }
    parts
}

} // verus!
