//! Conversions between strings and character vectors, and the trimming
//! and searching helpers that the pattern matchers build on.

use vstd::prelude::*;
use vstd::string::StrSliceExecFns;
use crate::spec_is_space;
use crate::is_space;

verus! {

/// The characters of a text, one per element, in order.
pub fn chars_of(s: &str) -> (v: Vec<char>)
    ensures
        v@ == s@,
{
    let n: usize = s.unicode_len();
    let mut v: Vec<char> = Vec::new();
    let mut i: usize = 0;
    while i < n
        invariant
            n == s@.len(),
            i <= n,
            v@ == s@.subrange(0, i as int),
        decreases n - i,
    {
        let c = s.get_char(i);
        v.push(c);
        assert(v@ =~= s@.subrange(0, i + 1 as int));
        i = i + 1;
    }
    assert(v@ =~= s@);
    v
}

/// Relies on String::push: it appends exactly the given character at the
/// end of the string.
#[verifier::external_body]
fn push_char(s: &mut String, c: char)
    ensures
        final(s)@ == old(s)@.push(c),
{
    s.push(c);
}

/// A string holding exactly the given characters, in order.
pub fn string_from_chars(v: &Vec<char>) -> (s: String)
    ensures
        s@ == v@,
{
    let mut s = String::new();
    let mut i: usize = 0;
    while i < v.len()
        invariant
            i <= v@.len(),
            s@ == v@.subrange(0, i as int),
        decreases v@.len() - i,
    {
        push_char(&mut s, v[i]);
        assert(s@ =~= v@.subrange(0, i + 1 as int));
        i = i + 1;
    }
    assert(s@ =~= v@);
    s
}

/// Pins the result of `spec_skip_spaces`: it is `r` exactly where
/// everything from `from` up to `r` is whitespace and `r` is not (or is
/// the length).
pub proof fn lemma_skip_spaces_at(s: Seq<char>, from: int, r: int)
    requires
        0 <= from <= r <= s.len(),
        r < s.len() ==> !spec_is_space(s[r]),
        forall|j: int| from <= j < r ==> spec_is_space(s[j]),
    ensures
        spec_skip_spaces(s, from) == r,
    decreases r - from,
{
    if from < r {
        lemma_skip_spaces_at(s, from + 1, r);
    }
}

/// A text without leading or trailing whitespace trims to itself.
pub proof fn lemma_trim_id(s: Seq<char>)
    requires
        s.len() > 0 ==> !spec_is_space(s[0]) && !spec_is_space(s[s.len() - 1]),
    ensures
        spec_trim(s) == s,
{
    if s.len() == 0 {
        assert(spec_trim(s) =~= s);
    } else {
        lemma_skip_spaces_at(s, 0, 0);
        assert(spec_trim_end(s, s.len() as int) == s.len());
        assert(s.subrange(0, s.len() as int) =~= s);
    }
}

/// The index of the first occurrence of `c` in `s` at or after `from`, or
/// `s.len()` where there is none.
pub open spec fn spec_find_char(s: Seq<char>, c: char, from: int) -> int
    decreases s.len() - from,
{
    if from < 0 || from >= s.len() {
        s.len() as int
    } else if s[from] == c {
        from
    } else {
        spec_find_char(s, c, from + 1)
    }
}

/// What `spec_find_char` promises: the result lies between `from` and the
/// length, nothing before it matches, and it points at `c` unless it is
/// the length.
pub proof fn lemma_find_char(s: Seq<char>, c: char, from: int)
    requires
        0 <= from <= s.len(),
    ensures
        from <= spec_find_char(s, c, from) <= s.len(),
        spec_find_char(s, c, from) < s.len() ==> s[spec_find_char(s, c, from)] == c,
        forall|j: int| from <= j < spec_find_char(s, c, from) ==> s[j] != c,
    decreases s.len() - from,
{
    if from < s.len() && s[from] != c {
        lemma_find_char(s, c, from + 1);
    }
}

/// Pins the result of `spec_find_char`: it is `r` exactly where `r`
/// holds `c` and nothing before it does.
pub proof fn lemma_find_char_at(s: Seq<char>, c: char, from: int, r: int)
    requires
        0 <= from <= r < s.len(),
        s[r] == c,
        forall|j: int| from <= j < r ==> s[j] != c,
    ensures
        spec_find_char(s, c, from) == r,
    decreases r - from,
{
    if from < r {
        lemma_find_char_at(s, c, from + 1, r);
    }
}

/// The index of the first character at or after `from` that is not ASCII
/// whitespace, or `s.len()` where there is none.
pub open spec fn spec_skip_spaces(s: Seq<char>, from: int) -> int
    decreases s.len() - from,
{
    if from < 0 || from >= s.len() {
        s.len() as int
    } else if spec_is_space(s[from]) {
        spec_skip_spaces(s, from + 1)
    } else {
        from
    }
}

/// What `spec_skip_spaces` promises: everything before the result is
/// whitespace and the result itself is not, unless it is the length.
pub proof fn lemma_skip_spaces(s: Seq<char>, from: int)
    requires
        0 <= from <= s.len(),
    ensures
        from <= spec_skip_spaces(s, from) <= s.len(),
        spec_skip_spaces(s, from) < s.len() ==> !spec_is_space(s[spec_skip_spaces(s, from)]),
        forall|j: int| from <= j < spec_skip_spaces(s, from) ==> spec_is_space(s[j]),
    decreases s.len() - from,
{
    if from < s.len() && spec_is_space(s[from]) {
        lemma_skip_spaces(s, from + 1);
    }
}

/// Finds the first occurrence of `c` in `v` at or after `from`.
pub fn find_char(v: &Vec<char>, c: char, from: usize) -> (r: usize)
    requires
        from <= v@.len(),
    ensures
        r == spec_find_char(v@, c, from as int),
        r <= v@.len(),
{
    let mut i: usize = from;
    while i < v.len()
        invariant
            from <= i <= v@.len(),
            spec_find_char(v@, c, from as int) == spec_find_char(v@, c, i as int),
        decreases v@.len() - i,
    {
        if v[i] == c {
            return i;
        }
        i = i + 1;
    }
    i
}

/// Finds the first index at or after `from` holding a character that is
/// not ASCII whitespace.
pub fn skip_spaces(v: &Vec<char>, from: usize) -> (r: usize)
    requires
        from <= v@.len(),
    ensures
        r == spec_skip_spaces(v@, from as int),
        r <= v@.len(),
{
    let mut i: usize = from;
    while i < v.len()
        invariant
            from <= i <= v@.len(),
            spec_skip_spaces(v@, from as int) == spec_skip_spaces(v@, i as int),
        decreases v@.len() - i,
    {
        if !is_space(v[i]) {
            return i;
        }
        i = i + 1;
    }
    i
}

/// The given characters with leading and trailing ASCII whitespace
/// removed: the subrange from the first non-whitespace character to the
/// last one, or the empty sequence where all characters are whitespace.
pub open spec fn spec_trim(s: Seq<char>) -> Seq<char> {
    let lo = spec_skip_spaces(s, 0);
    if lo == s.len() {
        Seq::<char>::empty()
    } else {
        let hi = spec_trim_end(s, s.len() as int);
        s.subrange(lo, hi)
    }
}

/// The end of the text once trailing ASCII whitespace is dropped: the
/// least upper bound `hi <= upto` such that everything from `hi` to
/// `upto` is whitespace and `s[hi - 1]` is not.
pub open spec fn spec_trim_end(s: Seq<char>, upto: int) -> int
    decreases upto,
{
    if upto <= 0 {
        0
    } else if spec_is_space(s[upto - 1]) {
        spec_trim_end(s, upto - 1)
    } else {
        upto
    }
}

/// What `spec_trim_end` promises.
pub proof fn lemma_trim_end(s: Seq<char>, upto: int)
    requires
        0 <= upto <= s.len(),
    ensures
        0 <= spec_trim_end(s, upto) <= upto,
        spec_trim_end(s, upto) > 0 ==> !spec_is_space(s[spec_trim_end(s, upto) - 1]),
        forall|j: int| spec_trim_end(s, upto) <= j < upto ==> spec_is_space(s[j]),
    decreases upto,
{
    if upto > 0 && spec_is_space(s[upto - 1]) {
        lemma_trim_end(s, upto - 1);
    }
}

/// The end of `v` once trailing ASCII whitespace is dropped.
fn trim_end_pos(v: &Vec<char>) -> (hi: usize)
    ensures
        hi == spec_trim_end(v@, v@.len() as int),
{
    let mut hi: usize = v.len();
    while hi > 0
        invariant
            0 <= hi <= v@.len(),
            spec_trim_end(v@, v@.len() as int) == spec_trim_end(v@, hi as int),
        decreases hi,
    {
        if is_space(v[hi - 1]) {
            hi = hi - 1;
        } else {
            return hi;
        }
    }
    hi
}

/// The trimmed text of `v`: leading and trailing ASCII whitespace removed.
pub fn trim(v: &Vec<char>) -> (r: Vec<char>)
    ensures
        r@ == spec_trim(v@),
{
    let lo = skip_spaces(v, 0);
    if lo == v.len() {
        let r: Vec<char> = Vec::new();
        assert(r@ =~= spec_trim(v@));
        r
    } else {
        let hi = trim_end_pos(v);
        proof {
            lemma_skip_spaces(v@, 0);
            lemma_trim_end(v@, v@.len() as int);
        }
        subrange_of(v, lo, hi)
    }
}

/// The characters of `v` from `lo` (inclusive) to `hi` (exclusive).
pub fn subrange_of(v: &Vec<char>, lo: usize, hi: usize) -> (r: Vec<char>)
    requires
        lo <= hi <= v@.len(),
    ensures
        r@ == v@.subrange(lo as int, hi as int),
{
    let mut r: Vec<char> = Vec::new();
    let mut i: usize = lo;
    while i < hi
        invariant
            lo <= i <= hi <= v@.len(),
            r@ == v@.subrange(lo as int, i as int),
        decreases hi - i,
    {
        r.push(v[i]);
        assert(r@ =~= v@.subrange(lo as int, i + 1 as int));
        i = i + 1;
    }
    r
}

/// Whether two string slices hold the same characters.
pub fn str_eq(a: &str, b: &str) -> (r: bool)
    ensures
        r == (a@ == b@),
{
    let ac = chars_of(a);
    let bc = chars_of(b);
    chars_eq(&ac, &bc)
}

/// Whether the characters of `a` equal the characters of `b`.
pub fn chars_eq(a: &Vec<char>, b: &Vec<char>) -> (r: bool)
    ensures
        r == (a@ == b@),
{
    if a.len() != b.len() {
        assert(a@ != b@);
        return false;
    }
    let mut i: usize = 0;
    while i < a.len()
        invariant
            i <= a@.len(),
            a@.len() == b@.len(),
            forall|j: int| 0 <= j < i ==> a@[j] == b@[j],
        decreases a@.len() - i,
    {
        if a[i] != b[i] {
            assert(a@ != b@);
            return false;
        }
        i = i + 1;
    }
    assert(a@ =~= b@);
    true
}

} // verus!
