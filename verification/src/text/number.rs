//! Numbers in decimal notation, written and read.

use vstd::prelude::*;

verus! {

/// Whether `c` is one of the ten ASCII digits.
pub open spec fn is_digit(c: char) -> bool {
    '0' <= c && c <= '9'
}

/// The character that writes the digit `d`.
pub open spec fn digit_char(d: nat) -> char {
    (48 + d) as char
}

/// The decimal notation of `n`, without leading zeros.
pub open spec fn decimal(n: nat) -> Seq<char>
    decreases n,
{
    if n < 10 {
        seq![digit_char(n)]
    } else {
        decimal(n / 10).push(digit_char(n % 10))
    }
}

/// The number that a sequence of digits writes in decimal notation.
pub open spec fn digits_value(s: Seq<char>) -> nat
    decreases s.len(),
{
    if s.len() == 0 {
        0
    } else {
        digits_value(s.drop_last()) * 10 + (s.last() as nat - 48) as nat
    }
}

/// Whether every character of `s` is a digit.
pub open spec fn all_digits(s: Seq<char>) -> bool {
    forall|i: int| 0 <= i < s.len() ==> is_digit(#[trigger] s[i])
}

/// The number of digits at the start of `s`.
pub open spec fn digits_prefix_len(s: Seq<char>) -> int
    decreases s.len(),
{
    if s.len() > 0 && is_digit(s[0]) {
        1 + digits_prefix_len(s.drop_first())
    } else {
        0
    }
}

/// The digits of a number that may be written with a `+` in front.
pub open spec fn index_digits(value: Seq<char>) -> Seq<char> {
    if value.len() > 0 && value[0] == '+' {
        value.skip(1)
    } else {
        value
    }
}

/// The number that a text denotes, if it is one: digits, with or without a
/// `+` in front, of a number that fits the machine's word. This is how the
/// standard library reads a `usize`.
pub open spec fn parse_index(value: Seq<char>) -> Option<usize> {
    let digits = index_digits(value);
    if digits.len() > 0 && all_digits(digits) && digits_value(digits) <= usize::MAX {
        Some(digits_value(digits) as usize)
    } else {
        None
    }
}

/// `digits_prefix_len` is the first position that holds no digit.
pub proof fn lemma_digits_prefix_len(s: Seq<char>)
    ensures
        0 <= digits_prefix_len(s) <= s.len(),
        all_digits(s.take(digits_prefix_len(s))),
        digits_prefix_len(s) < s.len() ==> !is_digit(s[digits_prefix_len(s)]),
    decreases s.len(),
{
    if s.len() > 0 && is_digit(s[0]) {
        let t = s.drop_first();
        lemma_digits_prefix_len(t);
        let n = digits_prefix_len(s);
        assert forall|j: int| 0 <= j < s.take(n).len() implies is_digit(#[trigger] s.take(n)[j]) by {
            if j > 0 {
                assert(s.take(n)[j] == t.take(n - 1)[j - 1]);
            }
        }
    }
}

/// A position with only digits before it, which holds none or is the
/// length, is `digits_prefix_len`.
pub proof fn lemma_digits_prefix_len_is(s: Seq<char>, i: int)
    requires
        0 <= i <= s.len(),
        forall|j: int| 0 <= j < i ==> is_digit(s[j]),
        i < s.len() ==> !is_digit(s[i]),
    ensures
        digits_prefix_len(s) == i,
{
    lemma_digits_prefix_len(s);
    let f = digits_prefix_len(s);
    if f < i {
    } else if f > i {
        assert(s.take(f)[i] == s[i]);
    }
}

/// The value of a digit sequence grows with each digit appended.
pub proof fn lemma_digits_value_prefix(s: Seq<char>, i: int)
    requires
        0 <= i <= s.len(),
        all_digits(s),
    ensures
        digits_value(s.take(i)) <= digits_value(s),
    decreases s.len() - i,
{
    if i == s.len() {
        assert(s.take(i) =~= s);
    } else {
        lemma_digits_value_prefix(s, i + 1);
        assert(s.take(i + 1).drop_last() =~= s.take(i));
    }
}

/// The decimal notation of `n`.
pub fn decimal_string(n: u128) -> (s: String)
    ensures
        s@ == decimal(n as nat),
    decreases n,
{
    if n < 10 {
        let mut s = String::new();
        s.push((48u8 + (n as u8)) as char);
        s
    } else {
        let mut s = decimal_string(n / 10);
        s.push((48u8 + ((n % 10) as u8)) as char);
        s
    }
}

/// The number written by the digits `v[from..to]`, when it fits in 64 bits.
pub(crate) fn parse_digits(v: &Vec<char>, from: usize, to: usize) -> (r: Option<u64>)
    requires
        from <= to <= v.len(),
        all_digits(v@.subrange(from as int, to as int)),
    ensures
        r == if digits_value(v@.subrange(from as int, to as int)) <= u64::MAX {
            Some(digits_value(v@.subrange(from as int, to as int)) as u64)
        } else {
            None
        },
{
    let ghost s = v@.subrange(from as int, to as int);
    let mut acc: u64 = 0;
    let mut i: usize = from;
    while i < to
        invariant
            from <= i <= to <= v.len(),
            s == v@.subrange(from as int, to as int),
            all_digits(s),
            acc == digits_value(s.take(i - from)),
        decreases to - i,
    {
        let c = v[i];
        proof {
            assert(s.take(i - from + 1).drop_last() =~= s.take(i - from));
            lemma_digits_value_prefix(s, i - from + 1);
        }
        let d: u64 = (c as u64) - 48;
        if acc > (u64::MAX - d) / 10 {
            return None;
        }
        acc = acc * 10 + d;
        i += 1;
    }
    proof {
        assert(s.take(to - from) =~= s);
    }
    Some(acc)
}

/// Whether every character of `v[from..to]` is a digit.
pub(crate) fn digits_only(v: &Vec<char>, from: usize, to: usize) -> (b: bool)
    requires
        from <= to <= v.len(),
    ensures
        b == all_digits(v@.subrange(from as int, to as int)),
{
    let ghost s = v@.subrange(from as int, to as int);
    let mut i: usize = from;
    while i < to
        invariant
            from <= i <= to <= v.len(),
            s == v@.subrange(from as int, to as int),
            forall|j: int| 0 <= j < i - from ==> is_digit(#[trigger] s[j]),
        decreases to - i,
    {
        let c = v[i];
        if !(c >= '0' && c <= '9') {
            proof {
                assert(s[i - from] == c);
            }
            return false;
        }
        i += 1;
    }
    true
}

/// The number that a text denotes, if it is one.
pub fn index_of_value(value: &Vec<char>) -> (r: Option<usize>)
    ensures
        r == parse_index(value@),
{
    let from: usize = if value.len() > 0 && value[0] == '+' {
        1
    } else {
        0
    };
    proof {
        assert(index_digits(value@) =~= value@.subrange(from as int, value.len() as int));
    }
    if from == value.len() || !digits_only(value, from, value.len()) {
        return None;
    }
    match parse_digits(value, from, value.len()) {
        Some(n) => if n <= usize::MAX as u64 {
            Some(n as usize)
        } else {
            None
        },
        None => None,
    }
}

} // verus!
