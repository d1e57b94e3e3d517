//! Removing white space around a text, and quote characters within it.

use vstd::prelude::*;
use crate::text::{is_white_space, slice_of};

verus! {

/// `s` without its leading white space.
pub open spec fn trim_start(s: Seq<char>) -> Seq<char>
    decreases s.len(),
{
    if s.len() > 0 && is_white_space(s[0]) {
        trim_start(s.drop_first())
    } else {
        s
    }
}

/// `s` without its trailing white space.
pub open spec fn trim_end(s: Seq<char>) -> Seq<char>
    decreases s.len(),
{
    if s.len() > 0 && is_white_space(s.last()) {
        trim_end(s.drop_last())
    } else {
        s
    }
}

/// `s` without leading and trailing white space.
pub open spec fn trim(s: Seq<char>) -> Seq<char> {
    trim_end(trim_start(s))
}

/// Whether `c` is one of the two quote characters.
pub open spec fn is_quote(c: char) -> bool {
    c == '\'' || c == '"'
}

/// `s` with every quote character removed.
pub open spec fn unquoted(s: Seq<char>) -> Seq<char>
    decreases s.len(),
{
    if s.len() == 0 {
        s
    } else if is_quote(s.last()) {
        unquoted(s.drop_last())
    } else {
        unquoted(s.drop_last()).push(s.last())
    }
}

/// The number of white-space characters at the start of `s`.
pub open spec fn space_prefix_len(s: Seq<char>) -> int
    decreases s.len(),
{
    if s.len() > 0 && is_white_space(s[0]) {
        1 + space_prefix_len(s.drop_first())
    } else {
        0
    }
}

/// `space_prefix_len` is the first position that holds no white space.
pub proof fn lemma_space_prefix_len(s: Seq<char>)
    ensures
        0 <= space_prefix_len(s) <= s.len(),
        forall|j: int| 0 <= j < space_prefix_len(s) ==> is_white_space(s[j]),
        space_prefix_len(s) < s.len() ==> !is_white_space(s[space_prefix_len(s)]),
        trim_start(s) == s.skip(space_prefix_len(s)),
    decreases s.len(),
{
    if s.len() > 0 && is_white_space(s[0]) {
        let t = s.drop_first();
        lemma_space_prefix_len(t);
        assert forall|j: int| 0 <= j < space_prefix_len(s) implies is_white_space(s[j]) by {
            if j > 0 {
                assert(s[j] == t[j - 1]);
            }
        }
    }
}

/// A position with only white space before it, which holds none or is the
/// length, is `space_prefix_len`.
pub proof fn lemma_space_prefix_len_is(s: Seq<char>, i: int)
    requires
        0 <= i <= s.len(),
        forall|j: int| 0 <= j < i ==> is_white_space(s[j]),
        i < s.len() ==> !is_white_space(s[i]),
    ensures
        space_prefix_len(s) == i,
{
    lemma_space_prefix_len(s);
}

/// Trailing white space is what `trim_end` removes: the result is the prefix
/// that ends after the last character that is not white space.
pub proof fn lemma_trim_end_is(s: Seq<char>, i: int)
    requires
        0 <= i <= s.len(),
        forall|j: int| i <= j < s.len() ==> is_white_space(s[j]),
        i > 0 ==> !is_white_space(s[i - 1]),
    ensures
        trim_end(s) == s.take(i),
    decreases s.len(),
{
    if s.len() > 0 && is_white_space(s.last()) {
        let t = s.drop_last();
        lemma_trim_end_is(t, i);
    }
}

/// `v` without leading and trailing white space.
pub fn trim_chars(v: &Vec<char>) -> (r: Vec<char>)
    ensures
        r@ == trim(v@),
{
    let mut a: usize = 0;
    while a < v.len() && v[a].is_whitespace()
        invariant
            a <= v.len(),
            forall|j: int| 0 <= j < a ==> is_white_space(v@[j]),
        decreases v.len() - a,
    {
        a += 1;
    }
    let mut b: usize = v.len();
    while b > a && v[b - 1].is_whitespace()
        invariant
            a <= b <= v.len(),
            forall|j: int| b <= j < v.len() ==> is_white_space(v@[j]),
        decreases b,
    {
        b -= 1;
    }
    proof {
        lemma_space_prefix_len(v@);
        let t = v@.skip(a as int);
        lemma_trim_end_is(t, b - a);
    }
    slice_of(v, a, b)
}

/// `v` with every quote character removed.
pub fn unquoted_chars(v: &Vec<char>) -> (r: Vec<char>)
    ensures
        r@ == unquoted(v@),
{
    let mut r: Vec<char> = Vec::new();
    let mut i: usize = 0;
    while i < v.len()
        invariant
            i <= v.len(),
            r@ == unquoted(v@.take(i as int)),
        decreases v.len() - i,
    {
        let c = v[i];
        proof {
            assert(v@.take(i + 1).drop_last() =~= v@.take(i as int));
        }
        if c != '\'' && c != '"' {
            r.push(c);
        }
        i += 1;
    }
    proof {
        assert(v@.take(v.len() as int) =~= v@);
    }
    r
}

} // verus!
