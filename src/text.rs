//! Characters of a string and its whitespace-separated tokens.

use vstd::prelude::*;

verus! {

broadcast use vstd::string::group_string_axioms;

/// The characters of `s`, in order.
pub(crate) fn char_vec(s: &str) -> (r: Vec<char>)
    ensures
        r@ == s@,
{
    let mut r: Vec<char> = Vec::new();
    for c in it: s.chars()
        invariant
            r@ == it.seq().take(it.index() as int),
    {
        r.push(c);
    }
    r
}

/// Whether `c` has the Unicode `White_Space` property.
pub open spec fn is_space(c: char) -> bool {
    let u = c as u32;
    (0x9 <= u && u <= 0xd) || u == 0x20 || u == 0x85 || u == 0xa0 || u == 0x1680 || (0x2000 <= u
        && u <= 0x200a) || u == 0x2028 || u == 0x2029 || u == 0x202f || u == 0x205f || u == 0x3000
}

/// Whether `c` is a whitespace character.
pub(crate) fn is_space_char(c: char) -> (r: bool)
    ensures
        r == is_space(c),
{
    let u = c as u32;
    (0x9 <= u && u <= 0xd) || u == 0x20 || u == 0x85 || u == 0xa0 || u == 0x1680 || (0x2000 <= u
        && u <= 0x200a) || u == 0x2028 || u == 0x2029 || u == 0x202f || u == 0x205f || u == 0x3000
}

/// The maximal runs of non-whitespace characters of `s`, in order.
/// Defined by reading `s` one character at a time from the left: whitespace
/// ends the current token, and any other character either extends the token
/// that the previous character belongs to or starts a new one.
pub open spec fn tokens(s: Seq<char>) -> Seq<Seq<char>>
    decreases s.len(),
{
    if s.len() == 0 {
        seq![]
    } else {
        let t = tokens(s.drop_last());
        let c = s.last();
        if is_space(c) {
            t
        } else if s.len() >= 2 && !is_space(s[s.len() - 2]) {
            t.update(t.len() - 1, t.last().push(c))
        } else {
            t.push(seq![c])
        }
    }
}

/// The character sequences of a list of string slices.
pub open spec fn views_of(v: Seq<&str>) -> Seq<Seq<char>> {
    v.map_values(|t: &str| t@)
}

/// Splits `s` into its whitespace-separated tokens.
pub fn split_tokens(s: &str) -> (r: Vec<&str>)
    ensures
        views_of(r@) == tokens(s@),
{
    let chars = char_vec(s);
    let n = chars.len();
    let mut acc: Vec<&str> = Vec::new();
    let mut start: usize = 0;
    let mut in_token = false;
    let mut i: usize = 0;
    while i < n
        invariant
            n == chars@.len(),
            chars@ == s@,
            i <= n,
            start <= i,
            in_token <==> (i > 0 && !is_space(s@[i - 1])),
            in_token ==> start < i,
            in_token ==> tokens(s@.take(i as int)) == views_of(acc@).push(
                s@.subrange(start as int, i as int),
            ),
            !in_token ==> tokens(s@.take(i as int)) == views_of(acc@),
        decreases n - i,
    {
        let c = chars[i];
        let ghost prefix = s@.take(i as int);
        let ghost next = s@.take(i + 1);
        assert(next.drop_last() == prefix);
        assert(next.last() == c);
        if is_space_char(c) {
            if in_token {
                let ghost before = views_of(acc@);
                acc.push(s.substring_char(start, i));
                assert(views_of(acc@) == before.push(s@.subrange(start as int, i as int)));
            }
            in_token = false;
        } else {
            if in_token {
                assert(s@.subrange(start as int, i + 1) == s@.subrange(start as int, i as int).push(
                    c,
                ));
                assert(views_of(acc@).push(s@.subrange(start as int, i + 1)) == views_of(
                    acc@,
                ).push(s@.subrange(start as int, i as int)).update(
                    views_of(acc@).len() as int,
                    s@.subrange(start as int, i + 1),
                ));
            } else {
                start = i;
                assert(s@.subrange(start as int, i + 1) == seq![c]);
            }
            in_token = true;
        }
        i = i + 1;
    }
    assert(s@.take(n as int) == s@);
    if in_token {
        let ghost before = views_of(acc@);
        acc.push(s.substring_char(start, n));
        assert(views_of(acc@) == before.push(s@.subrange(start as int, n as int)));
    }
    acc
}

} // verus!
