//! The decimal float literals accepted as an amount.
//!
//! An amount is what `str::parse` for a float accepts: an optional sign,
//! then either `inf`, `infinity` or `nan` in any ASCII case, or a number made
//! of digits with at most one decimal point and at least one digit, optionally
//! followed by an exponent (`e` or `E`, an optional sign and digits).

use vstd::prelude::*;

use crate::text::char_vec;

verus! {

pub open spec fn is_digit(c: char) -> bool {
    '0' <= c && c <= '9'
}

pub open spec fn is_sign(c: char) -> bool {
    c == '+' || c == '-'
}

pub open spec fn is_exp_mark(c: char) -> bool {
    c == 'e' || c == 'E'
}

/// A non-empty run of decimal digits.
pub open spec fn is_digits(s: Seq<char>) -> bool {
    s.len() > 0 && forall|i: int| 0 <= i < s.len() ==> is_digit(#[trigger] s[i])
}

/// Digits with at most one decimal point, and at least one digit.
pub open spec fn is_mantissa(s: Seq<char>) -> bool {
    &&& forall|i: int| 0 <= i < s.len() ==> is_digit(#[trigger] s[i]) || s[i] == '.'
    &&& forall|i: int, j: int|
        0 <= i < s.len() && 0 <= j < s.len() && #[trigger] s[i] == '.' && #[trigger] s[j] == '.'
            ==> i == j
    &&& exists|i: int| 0 <= i < s.len() && is_digit(#[trigger] s[i])
}

/// What follows the exponent mark: an optional sign, then digits.
pub open spec fn is_exponent(s: Seq<char>) -> bool {
    is_digits(s) || (s.len() > 0 && is_sign(s[0]) && is_digits(s.drop_first()))
}

/// A mantissa, optionally followed by an exponent mark and an exponent.
pub open spec fn is_number(s: Seq<char>) -> bool {
    is_mantissa(s) || exists|k: int|
        0 <= k < s.len() && is_exp_mark(#[trigger] s[k]) && is_mantissa(s.take(k)) && is_exponent(
            s.skip(k + 1),
        )
}

/// `s` spells a word whose lower-case letters are `lo` and upper-case ones
/// `up`, each letter in either case.
pub open spec fn spells(s: Seq<char>, lo: Seq<char>, up: Seq<char>) -> bool {
    s.len() == lo.len() && s.len() == up.len() && forall|i: int|
        0 <= i < s.len() ==> #[trigger] s[i] == lo[i] || s[i] == up[i]
}

/// `s` is `inf`, `infinity` or `nan`, in any ASCII case.
pub open spec fn is_special(s: Seq<char>) -> bool {
    ||| spells(s, seq!['i', 'n', 'f'], seq!['I', 'N', 'F'])
    ||| spells(
        s,
        seq!['i', 'n', 'f', 'i', 'n', 'i', 't', 'y'],
        seq!['I', 'N', 'F', 'I', 'N', 'I', 'T', 'Y'],
    )
    ||| spells(s, seq!['n', 'a', 'n'], seq!['N', 'A', 'N'])
}

/// `s` without its leading sign, if it has one.
pub open spec fn unsigned(s: Seq<char>) -> Seq<char> {
    if s.len() > 0 && is_sign(s[0]) {
        s.drop_first()
    } else {
        s
    }
}

/// `s` is a float literal.
pub open spec fn is_float_literal(s: Seq<char>) -> bool {
    is_special(unsigned(s)) || is_number(unsigned(s))
}

fn digit_char(c: char) -> (r: bool)
    ensures
        r == is_digit(c),
{
    '0' <= c && c <= '9'
}

/// Whether `v[lo..hi]` is a non-empty run of digits.
fn digits_at(v: &Vec<char>, lo: usize, hi: usize) -> (r: bool)
    requires
        lo <= hi <= v@.len(),
    ensures
        r == is_digits(v@.subrange(lo as int, hi as int)),
{
    let ghost s = v@.subrange(lo as int, hi as int);
    if lo == hi {
        return false;
    }
    let mut i: usize = lo;
    while i < hi
        invariant
            lo <= i <= hi <= v@.len(),
            s == v@.subrange(lo as int, hi as int),
            forall|j: int| 0 <= j < i - lo ==> is_digit(#[trigger] s[j]),
        decreases hi - i,
    {
        if !digit_char(v[i]) {
            assert(s[i - lo] == v@[i as int]);
            return false;
        }
        i = i + 1;
    }
    true
}

/// Whether `v[lo..hi]` is a mantissa.
fn mantissa_at(v: &Vec<char>, lo: usize, hi: usize) -> (r: bool)
    requires
        lo <= hi <= v@.len(),
    ensures
        r == is_mantissa(v@.subrange(lo as int, hi as int)),
{
    let ghost s = v@.subrange(lo as int, hi as int);
    let mut seen_dot = false;
    let mut dot_at: usize = lo;
    let mut seen_digit = false;
    let mut i: usize = lo;
    while i < hi
        invariant
            lo <= i <= hi <= v@.len(),
            s == v@.subrange(lo as int, hi as int),
            forall|j: int| 0 <= j < i - lo ==> is_digit(#[trigger] s[j]) || s[j] == '.',
            seen_dot ==> lo <= dot_at < i && s[dot_at - lo] == '.',
            forall|j: int| 0 <= j < i - lo && #[trigger] s[j] == '.' ==> seen_dot && j == dot_at - lo,
            seen_digit <==> exists|j: int| 0 <= j < i - lo && is_digit(#[trigger] s[j]),
        decreases hi - i,
    {
        let c = v[i];
        assert(s[i - lo] == c);
        if digit_char(c) {
            seen_digit = true;
        } else if c == '.' {
            if seen_dot {
                assert(s[dot_at - lo] == '.' && s[i - lo] == '.');
                return false;
            }
            seen_dot = true;
            dot_at = i;
        } else {
            return false;
        }
        i = i + 1;
    }
    seen_digit
}

/// Whether `v[lo..hi]` is an exponent.
fn exponent_at(v: &Vec<char>, lo: usize, hi: usize) -> (r: bool)
    requires
        lo <= hi <= v@.len(),
    ensures
        r == is_exponent(v@.subrange(lo as int, hi as int)),
{
    let ghost s = v@.subrange(lo as int, hi as int);
    if lo < hi && (v[lo] == '+' || v[lo] == '-') {
        assert(s.drop_first() == v@.subrange(lo + 1, hi as int));
        assert(!is_digit(s[0]));
        digits_at(v, lo + 1, hi)
    } else {
        digits_at(v, lo, hi)
    }
}

/// Whether `v[lo..hi]` is a number.
fn number_at(v: &Vec<char>, lo: usize, hi: usize) -> (r: bool)
    requires
        lo <= hi <= v@.len(),
    ensures
        r == is_number(v@.subrange(lo as int, hi as int)),
{
    let ghost s = v@.subrange(lo as int, hi as int);
    let mut k: usize = lo;
    while k < hi && !(v[k] == 'e' || v[k] == 'E')
        invariant
            lo <= k <= hi <= v@.len(),
            s == v@.subrange(lo as int, hi as int),
            forall|j: int| 0 <= j < k - lo ==> !is_exp_mark(#[trigger] s[j]),
        decreases hi - k,
    {
        k = k + 1;
    }
    if k == hi {
        assert forall|j: int| 0 <= j < s.len() implies !is_exp_mark(#[trigger] s[j]) by {}
        mantissa_at(v, lo, hi)
    } else {
        let e = k - lo;
        assert(is_exp_mark(s[e as int]));
        assert(!is_mantissa(s)) by {
            assert(!is_digit(s[e as int]) && s[e as int] != '.');
        }
        assert(s.take(e as int) == v@.subrange(lo as int, k as int));
        assert(s.skip(e + 1) == v@.subrange(k + 1, hi as int));
        let m = mantissa_at(v, lo, k);
        let x = exponent_at(v, k + 1, hi);
        assert forall|k2: int|
            0 <= k2 < s.len() && k2 != e && is_exp_mark(#[trigger] s[k2]) implies !is_mantissa(
            s.take(k2),
        ) by {
            if k2 > e {
                assert(s.take(k2)[e as int] == s[e as int]);
                assert(!is_digit(s.take(k2)[e as int]));
            }
        }
        m && x
    }
}

/// Whether `v[lo..hi]` spells the word `lw` / `uw` in any case.
fn spells_at(v: &Vec<char>, lo: usize, hi: usize, lw: &Vec<char>, uw: &Vec<char>) -> (r: bool)
    requires
        lo <= hi <= v@.len(),
        lw@.len() == uw@.len(),
    ensures
        r == spells(v@.subrange(lo as int, hi as int), lw@, uw@),
{
    let ghost s = v@.subrange(lo as int, hi as int);
    if hi - lo != lw.len() {
        return false;
    }
    let mut i: usize = 0;
    while i < lw.len()
        invariant
            lo + lw@.len() == hi <= v@.len(),
            lw@.len() == uw@.len(),
            s == v@.subrange(lo as int, hi as int),
            i <= lw@.len(),
            forall|j: int| 0 <= j < i ==> #[trigger] s[j] == lw@[j] || s[j] == uw@[j],
        decreases lw@.len() - i,
    {
        let c = v[lo + i];
        assert(s[i as int] == c);
        if !(c == lw[i] || c == uw[i]) {
            return false;
        }
        i = i + 1;
    }
    true
}

/// Whether `v[lo..hi]` is `inf`, `infinity` or `nan`, in any ASCII case.
fn special_at(v: &Vec<char>, lo: usize, hi: usize) -> (r: bool)
    requires
        lo <= hi <= v@.len(),
    ensures
        r == is_special(v@.subrange(lo as int, hi as int)),
{
    let inf_l = vec!['i', 'n', 'f'];
    let inf_u = vec!['I', 'N', 'F'];
    let infinity_l = vec!['i', 'n', 'f', 'i', 'n', 'i', 't', 'y'];
    let infinity_u = vec!['I', 'N', 'F', 'I', 'N', 'I', 'T', 'Y'];
    let nan_l = vec!['n', 'a', 'n'];
    let nan_u = vec!['N', 'A', 'N'];
    spells_at(v, lo, hi, &inf_l, &inf_u) || spells_at(v, lo, hi, &infinity_l, &infinity_u)
        || spells_at(v, lo, hi, &nan_l, &nan_u)
}

/// Whether `v` is a float literal.
pub(crate) fn float_literal_chars(v: &Vec<char>) -> (r: bool)
    ensures
        r == is_float_literal(v@),
{
    let n = v.len();
    let lo: usize = if n > 0 && (v[0] == '+' || v[0] == '-') {
        1
    } else {
        0
    };
    assert(unsigned(v@) == v@.subrange(lo as int, n as int));
    special_at(v, lo, n) || number_at(v, lo, n)
}

/// Whether `s` is a float literal.
pub fn check_float_literal(s: &str) -> (r: bool)
    ensures
        r == is_float_literal(s@),
{
    let v = char_vec(s);
    float_literal_chars(&v)
}

} // verus!
