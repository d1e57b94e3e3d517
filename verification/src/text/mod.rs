//! Text as sequences of characters: the vocabulary in which the parsers of
//! this crate are specified, and the executable helpers that implement it.

pub mod number;
pub mod split;
pub mod trim;

use vstd::prelude::*;

pub use number::{
    all_digits, decimal, decimal_string, digit_char, digits_prefix_len, digits_value,
    index_digits, index_of_value, is_digit, lemma_digits_prefix_len, lemma_digits_prefix_len_is,
    lemma_digits_value_prefix, parse_index,
};
pub(crate) use number::{digits_only, parse_digits};
pub use split::{
    find, join, lemma_find, lemma_find_is, lemma_join_front, lemma_join_split, lemma_split, split,
    split_chars,
};
pub(crate) use split::find_from;
pub use trim::{
    is_quote, lemma_space_prefix_len, lemma_space_prefix_len_is, lemma_trim_end_is,
    space_prefix_len, trim, trim_chars, trim_end, trim_start, unquoted, unquoted_chars,
};

verus! {

/// Whether `c` is white space in the sense of `char::is_whitespace`
/// (the Unicode `White_Space` property).
pub uninterp spec fn is_white_space(c: char) -> bool;

/// The lower-case form of `s` as `str::to_lowercase` computes it.
pub uninterp spec fn lowercase(s: Seq<char>) -> Seq<char>;

/// Trusted: `char::is_whitespace` of the standard library. Its result depends
/// on the character alone, and is referred to as [`is_white_space`].
pub assume_specification[ char::is_whitespace ](c: char) -> (b: bool)
    ensures
        b == is_white_space(c),
;

/// Trusted: `str::to_lowercase` of the standard library. Its result depends
/// on the text alone (no locale is involved), and is referred to as
/// [`lowercase`].
pub assume_specification[ str::to_lowercase ](s: &str) -> (r: std::string::String)
    ensures
        r@ == lowercase(s@),
;

/// Trusted: `String::push` of the standard library appends one character.
pub assume_specification[ std::string::String::push ](s: &mut std::string::String, c: char)
    ensures
        final(s)@ == old(s)@.push(c),
;

/// The views of a sequence of character vectors.
pub open spec fn views(parts: Seq<Vec<char>>) -> Seq<Seq<char>> {
    parts.map_values(|p: Vec<char>| p@)
}

/// The characters of a string slice.
pub fn chars_of(s: &str) -> (v: Vec<char>)
    ensures
        v@ == s@,
{
    let mut v: Vec<char> = Vec::new();
    for c in it: s.chars()
        invariant
            v@ == it.seq().take(it.index() as int),
    {
        v.push(c);
    }
    v
}

/// The string made of the characters `v[from..to]`.
pub(crate) fn string_of(v: &Vec<char>, from: usize, to: usize) -> (s: String)
    requires
        from <= to <= v.len(),
    ensures
        s@ == v@.subrange(from as int, to as int),
{
    let mut s = String::new();
    let mut i: usize = from;
    while i < to
        invariant
            from <= i <= to <= v.len(),
            s@ == v@.subrange(from as int, i as int),
        decreases to - i,
    {
        s.push(v[i]);
        i += 1;
    }
    s
}

/// A copy of the characters `v[from..to]`.
pub(crate) fn slice_of(v: &Vec<char>, from: usize, to: usize) -> (r: Vec<char>)
    requires
        from <= to <= v.len(),
    ensures
        r@ == v@.subrange(from as int, to as int),
{
    let mut r: Vec<char> = Vec::new();
    let mut i: usize = from;
    while i < to
        invariant
            from <= i <= to <= v.len(),
            r@ == v@.subrange(from as int, i as int),
        decreases to - i,
    {
        r.push(v[i]);
        i += 1;
    }
    r
}

/// Whether `v` begins with the characters of `prefix`.
pub fn has_prefix(v: &Vec<char>, prefix: &str) -> (b: bool)
    ensures
        b == prefix@.is_prefix_of(v@),
{
    let p = chars_of(prefix);
    if p.len() > v.len() {
        return false;
    }
    let mut i: usize = 0;
    while i < p.len()
        invariant
            i <= p.len() <= v.len(),
            p@ == prefix@,
            forall|j: int| 0 <= j < i ==> p@[j] == v@[j],
        decreases p.len() - i,
    {
        if p[i] != v[i] {
            return false;
        }
        i += 1;
    }
    true
}

/// Whether `v` holds exactly the characters of `other`.
pub fn same_text(v: &Vec<char>, other: &str) -> (b: bool)
    ensures
        b == (v@ == other@),
{
    let p = chars_of(other);
    if p.len() != v.len() {
        return false;
    }
    let mut i: usize = 0;
    while i < p.len()
        invariant
            i <= p.len() == v.len(),
            p@ == other@,
            forall|j: int| 0 <= j < i ==> p@[j] == v@[j],
        decreases p.len() - i,
    {
        if p[i] != v[i] {
            return false;
        }
        i += 1;
    }
    assert(v@ =~= other@);
    true
}

} // verus!
