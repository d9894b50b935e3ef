//! The grammar of floating-point literals that the classifier accepts on
//! the right-hand side of a variable binding and inside point
//! coordinates: an optional sign, then either a case-insensitive infinity
//! or not-a-number keyword, or digits with an optional decimal dot and an
//! optional exponent part.

use vstd::prelude::*;
use crate::text::spec_find_char;
use crate::text::lemma_find_char;
use crate::text::find_char;
use crate::text::subrange_of;

verus! {

/// Whether a character is an ASCII decimal digit.
pub open spec fn spec_is_digit(c: char) -> bool {
    '0' <= c && c <= '9'
}

/// Whether every character of `s` is an ASCII decimal digit.
pub open spec fn spec_all_digits(s: Seq<char>) -> bool {
    forall|i: int| 0 <= i < s.len() ==> spec_is_digit(#[trigger] s[i])
}

/// Whether `c` is the lower-case or the upper-case form of a letter.
pub open spec fn spec_ci(c: char, lower: char, upper: char) -> bool {
    c == lower || c == upper
}

/// Whether `s` reads `inf`, case-insensitively.
pub open spec fn spec_is_inf(s: Seq<char>) -> bool {
    s.len() == 3 && spec_ci(s[0], 'i', 'I') && spec_ci(s[1], 'n', 'N') && spec_ci(s[2], 'f', 'F')
}

/// Whether `s` reads `infinity`, case-insensitively.
pub open spec fn spec_is_infinity(s: Seq<char>) -> bool {
    s.len() == 8 && spec_ci(s[0], 'i', 'I') && spec_ci(s[1], 'n', 'N') && spec_ci(s[2], 'f', 'F')
        && spec_ci(s[3], 'i', 'I') && spec_ci(s[4], 'n', 'N') && spec_ci(s[5], 'i', 'I')
        && spec_ci(s[6], 't', 'T') && spec_ci(s[7], 'y', 'Y')
}

/// Whether `s` reads `nan`, case-insensitively.
pub open spec fn spec_is_nan(s: Seq<char>) -> bool {
    s.len() == 3 && spec_ci(s[0], 'n', 'N') && spec_ci(s[1], 'a', 'A') && spec_ci(s[2], 'n', 'N')
}

/// Whether `s` is a mantissa: at least one digit, at most one decimal
/// dot, and nothing else.
pub open spec fn spec_is_mantissa(s: Seq<char>) -> bool {
    let d = spec_find_char(s, '.', 0);
    if d == s.len() {
        s.len() > 0 && spec_all_digits(s)
    } else {
        s.len() > 1 && spec_all_digits(s.subrange(0, d)) && spec_all_digits(
            s.subrange(d + 1, s.len() as int),
        )
    }
}

/// Whether `s` is an exponent part (what follows the `e`): an optional
/// sign, then at least one digit.
pub open spec fn spec_is_exponent(s: Seq<char>) -> bool {
    let b = if s.len() > 0 && (s[0] == '+' || s[0] == '-') {
        s.subrange(1, s.len() as int)
    } else {
        s
    };
    b.len() > 0 && spec_all_digits(b)
}

/// The index of the first exponent marker (`e` or `E`) in `s`, or the
/// length where there is none.
pub open spec fn spec_find_exp(s: Seq<char>) -> int {
    let p1 = spec_find_char(s, 'e', 0);
    let p2 = spec_find_char(s, 'E', 0);
    if p1 <= p2 {
        p1
    } else {
        p2
    }
}

/// Whether `s` is an unsigned number: a mantissa, optionally followed by
/// an exponent marker and an exponent part.
pub open spec fn spec_is_number(s: Seq<char>) -> bool {
    let p = spec_find_exp(s);
    if p == s.len() {
        spec_is_mantissa(s)
    } else {
        spec_is_mantissa(s.subrange(0, p)) && spec_is_exponent(s.subrange(p + 1, s.len() as int))
    }
}

/// Whether `s` is a floating-point literal: an optional sign, then an
/// infinity or not-a-number keyword or an unsigned number.
pub open spec fn spec_is_float_literal(s: Seq<char>) -> bool {
    let b = if s.len() > 0 && (s[0] == '+' || s[0] == '-') {
        s.subrange(1, s.len() as int)
    } else {
        s
    };
    spec_is_inf(b) || spec_is_infinity(b) || spec_is_nan(b) || spec_is_number(b)
}

/// The characters a floating-point literal can be made of: digits, the
/// dot, the signs, the exponent markers and the letters of the infinity
/// and not-a-number keywords.
pub open spec fn spec_literal_char(c: char) -> bool {
    spec_is_digit(c) || c == '.' || c == '+' || c == '-' || c == 'e' || c == 'E' || c == 'i'
        || c == 'I' || c == 'n' || c == 'N' || c == 'f' || c == 'F' || c == 'a' || c == 'A' || c
        == 't' || c == 'T' || c == 'y' || c == 'Y'
}

/// A mantissa is nonempty and made of digits and at most one dot.
pub proof fn lemma_mantissa_chars(s: Seq<char>)
    requires
        spec_is_mantissa(s),
    ensures
        s.len() > 0,
        forall|i: int| 0 <= i < s.len() ==> spec_is_digit(#[trigger] s[i]) || s[i] == '.',
{
    let d = spec_find_char(s, '.', 0);
    crate::text::lemma_find_char(s, '.', 0);
    if d < s.len() {
        assert forall|i: int| 0 <= i < s.len() implies spec_is_digit(#[trigger] s[i]) || s[i]
            == '.' by {
            if i < d {
                assert(s.subrange(0, d)[i] == s[i]);
            } else if i > d {
                assert(s.subrange(d + 1, s.len() as int)[i - d - 1] == s[i]);
            }
        }
    }
}

/// An exponent part is nonempty and made of digits after an optional
/// leading sign.
pub proof fn lemma_exponent_chars(s: Seq<char>)
    requires
        spec_is_exponent(s),
    ensures
        s.len() > 0,
        forall|i: int|
            0 <= i < s.len() ==> spec_is_digit(#[trigger] s[i]) || s[i] == '+' || s[i] == '-',
{
    if s.len() > 0 && (s[0] == '+' || s[0] == '-') {
        let b = s.subrange(1, s.len() as int);
        assert forall|i: int|
            0 <= i < s.len() implies spec_is_digit(#[trigger] s[i]) || s[i] == '+' || s[i]
            == '-' by {
            if i >= 1 {
                assert(b[i - 1] == s[i]);
            }
        }
    }
}

/// An unsigned number is nonempty and made of digits, at most one dot,
/// an exponent marker and the exponent's sign.
pub proof fn lemma_number_chars(s: Seq<char>)
    requires
        spec_is_number(s),
    ensures
        s.len() > 0,
        forall|i: int|
            0 <= i < s.len() ==> spec_is_digit(#[trigger] s[i]) || s[i] == '.' || s[i] == '+'
                || s[i] == '-' || s[i] == 'e' || s[i] == 'E',
{
    let p = spec_find_exp(s);
    crate::text::lemma_find_char(s, 'e', 0);
    crate::text::lemma_find_char(s, 'E', 0);
    if p == s.len() {
        lemma_mantissa_chars(s);
    } else {
        let m = s.subrange(0, p);
        let e = s.subrange(p + 1, s.len() as int);
        lemma_mantissa_chars(m);
        lemma_exponent_chars(e);
        assert(s[p] == 'e' || s[p] == 'E');
        assert forall|i: int|
            0 <= i < s.len() implies spec_is_digit(#[trigger] s[i]) || s[i] == '.' || s[i] == '+'
            || s[i] == '-' || s[i] == 'e' || s[i] == 'E' by {
            if i < p {
                assert(m[i] == s[i]);
            } else if i > p {
                assert(e[i - p - 1] == s[i]);
            }
        }
    }
}

/// A floating-point literal is nonempty and made of literal characters
/// alone: in particular it holds no whitespace, no comma, no
/// parenthesis and no equals sign.
pub proof fn lemma_float_literal_chars(s: Seq<char>)
    requires
        spec_is_float_literal(s),
    ensures
        s.len() > 0,
        forall|i: int| 0 <= i < s.len() ==> spec_literal_char(#[trigger] s[i]),
{
    let signed = s.len() > 0 && (s[0] == '+' || s[0] == '-');
    let b = if signed {
        s.subrange(1, s.len() as int)
    } else {
        s
    };
    if spec_is_number(b) {
        lemma_number_chars(b);
    }
    assert forall|i: int| 0 <= i < s.len() implies spec_literal_char(#[trigger] s[i]) by {
        if signed && i == 0 {
        } else {
            let j: int = if signed {
                i - 1
            } else {
                i
            };
            assert(b[j] == s[i]);
            if spec_is_inf(b) || spec_is_infinity(b) || spec_is_nan(b) {
                assert(spec_literal_char(b[j]));
            }
        }
    }
}

/// Decides whether a character is an ASCII decimal digit.
pub fn is_digit(c: char) -> (r: bool)
    ensures
        r == spec_is_digit(c),
{
    '0' <= c && c <= '9'
}

/// Decides whether every character of `v` is an ASCII decimal digit.
pub fn all_digits(v: &Vec<char>) -> (r: bool)
    ensures
        r == spec_all_digits(v@),
{
    let mut i: usize = 0;
    while i < v.len()
        invariant
            i <= v@.len(),
            forall|j: int| 0 <= j < i ==> spec_is_digit(#[trigger] v@[j]),
        decreases v@.len() - i,
    {
        if !is_digit(v[i]) {
            return false;
        }
        i = i + 1;
    }
    true
}

/// Decides whether `v` reads `inf`, `infinity` or `nan`,
/// case-insensitively.
fn is_inf_or_nan(v: &Vec<char>) -> (r: bool)
    ensures
        r == (spec_is_inf(v@) || spec_is_infinity(v@) || spec_is_nan(v@)),
{
    if v.len() == 3 {
        let inf = (v[0] == 'i' || v[0] == 'I') && (v[1] == 'n' || v[1] == 'N') && (v[2] == 'f'
            || v[2] == 'F');
        let nan = (v[0] == 'n' || v[0] == 'N') && (v[1] == 'a' || v[1] == 'A') && (v[2] == 'n'
            || v[2] == 'N');
        inf || nan
    } else if v.len() == 8 {
        (v[0] == 'i' || v[0] == 'I') && (v[1] == 'n' || v[1] == 'N') && (v[2] == 'f' || v[2]
            == 'F') && (v[3] == 'i' || v[3] == 'I') && (v[4] == 'n' || v[4] == 'N') && (v[5] == 'i'
            || v[5] == 'I') && (v[6] == 't' || v[6] == 'T') && (v[7] == 'y' || v[7] == 'Y')
    } else {
        false
    }
}

/// Decides whether `v` is a mantissa.
fn is_mantissa(v: &Vec<char>) -> (r: bool)
    ensures
        r == spec_is_mantissa(v@),
{
    let d = find_char(v, '.', 0);
    proof {
        lemma_find_char(v@, '.', 0);
    }
    if d == v.len() {
        if v.len() == 0 {
            false
        } else {
            all_digits(v)
        }
    } else {
        if v.len() <= 1 {
            false
        } else {
            let before = subrange_of(v, 0, d);
            let after = subrange_of(v, d + 1, v.len());
            all_digits(&before) && all_digits(&after)
        }
    }
}

/// Decides whether `v` is an exponent part.
fn is_exponent(v: &Vec<char>) -> (r: bool)
    ensures
        r == spec_is_exponent(v@),
{
    if v.len() > 0 && (v[0] == '+' || v[0] == '-') {
        let b = subrange_of(v, 1, v.len());
        if b.len() == 0 {
            false
        } else {
            all_digits(&b)
        }
    } else {
        if v.len() == 0 {
            false
        } else {
            all_digits(v)
        }
    }
}

/// Decides whether `v` is an unsigned number.
fn is_number(v: &Vec<char>) -> (r: bool)
    ensures
        r == spec_is_number(v@),
{
    let p1 = find_char(v, 'e', 0);
    let p2 = find_char(v, 'E', 0);
    let p: usize = if p1 <= p2 {
        p1
    } else {
        p2
    };
    if p == v.len() {
        is_mantissa(v)
    } else {
        let m = subrange_of(v, 0, p);
        let e = subrange_of(v, p + 1, v.len());
        is_mantissa(&m) && is_exponent(&e)
    }
}

/// Decides whether `v` is a floating-point literal.
pub fn is_float_literal(v: &Vec<char>) -> (r: bool)
    ensures
        r == spec_is_float_literal(v@),
{
    if v.len() > 0 && (v[0] == '+' || v[0] == '-') {
        let b = subrange_of(v, 1, v.len());
        is_inf_or_nan(&b) || is_number(&b)
    } else {
        is_inf_or_nan(v) || is_number(v)
    }
}

} // verus!
