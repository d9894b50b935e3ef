//! Textual replace-all: every occurrence of a needle in a text is
//! replaced, scanning left to right without overlap, exactly as the
//! substitution engine applies variable and point values.

use vstd::prelude::*;

verus! {

/// The text `h` with every occurrence of `n` replaced by `r`: the text is
/// scanned left to right; at each position a match of `n` is replaced and
/// skipped, any other character is kept. An empty needle replaces
/// nothing.
pub open spec fn spec_replace_all(h: Seq<char>, n: Seq<char>, r: Seq<char>) -> Seq<char>
    decreases h.len(),
{
    if n.len() == 0 || h.len() < n.len() {
        h
    } else if h.subrange(0, n.len() as int) == n {
        r + spec_replace_all(h.subrange(n.len() as int, h.len() as int), n, r)
    } else {
        seq![h[0]] + spec_replace_all(h.subrange(1, h.len() as int), n, r)
    }
}

/// Whether `n` occurs in `h` starting at index `i`.
pub open spec fn spec_occurs_at(h: Seq<char>, n: Seq<char>, i: int) -> bool {
    0 <= i && i + n.len() <= h.len() && h.subrange(i, i + n.len()) == n
}

/// Whether `n` occurs anywhere in `h`.
pub open spec fn spec_occurs(h: Seq<char>, n: Seq<char>) -> bool {
    exists|i: int| spec_occurs_at(h, n, i)
}

/// Replacing a needle that occurs nowhere in the text leaves the text as
/// it was.
pub proof fn lemma_replace_all_no_occurrence(h: Seq<char>, n: Seq<char>, r: Seq<char>)
    requires
        n.len() > 0,
        !spec_occurs(h, n),
    ensures
        spec_replace_all(h, n, r) == h,
    decreases h.len(),
{
    if h.len() < n.len() {
    } else if h.subrange(0, n.len() as int) == n {
        assert(spec_occurs_at(h, n, 0));
    } else {
        let tail = h.subrange(1, h.len() as int);
        assert forall|i: int| !spec_occurs_at(tail, n, i) by {
            if spec_occurs_at(tail, n, i) {
                assert(h.subrange(i + 1, i + 1 + n.len()) =~= tail.subrange(i, i + n.len()));
                assert(spec_occurs_at(h, n, i + 1));
            }
        }
        lemma_replace_all_no_occurrence(tail, n, r);
        assert(seq![h[0]] + tail =~= h);
    }
}

/// After replacing every occurrence of a single-character needle by a
/// replacement that does not hold that character, the character is gone
/// from the result, wherever it stood: inside longer words as much as on
/// its own.
pub proof fn lemma_replace_all_removes_char(h: Seq<char>, c: char, r: Seq<char>)
    requires
        !r.contains(c),
    ensures
        !spec_replace_all(h, seq![c], r).contains(c),
    decreases h.len(),
{
    let n = seq![c];
    if h.len() < 1 {
    } else if h.subrange(0, 1) == n {
        let tail = h.subrange(1, h.len() as int);
        lemma_replace_all_removes_char(tail, c, r);
        let rest = spec_replace_all(tail, n, r);
        assert forall|i: int| 0 <= i < (r + rest).len() implies (r + rest)[i] != c by {
            if i < r.len() {
                assert(r[i] != c);
            } else {
                assert(rest[i - r.len()] != c);
            }
        }
    } else {
        let tail = h.subrange(1, h.len() as int);
        lemma_replace_all_removes_char(tail, c, r);
        let rest = spec_replace_all(tail, n, r);
        assert(h.subrange(0, 1) =~= seq![h[0]]);
        assert(h[0] != c);
        assert forall|i: int| 0 <= i < (seq![h[0]] + rest).len() implies (seq![h[0]] + rest)[i]
            != c by {
            if i >= 1 {
                assert(rest[i - 1] != c);
            }
        }
    }
}

/// Decides whether `n@` stands in `h@` at position `i`.
fn matches_at(h: &Vec<char>, i: usize, n: &Vec<char>) -> (r: bool)
    requires
        i + n@.len() <= h@.len(),
    ensures
        r == (h@.subrange(i as int, i + n@.len()) == n@),
{
    let hl = h.len();
    let mut j: usize = 0;
    while j < n.len()
        invariant
            j <= n@.len(),
            i + n@.len() <= hl == h@.len(),
            forall|k: int| 0 <= k < j ==> h@[i + k] == n@[k],
        decreases n@.len() - j,
    {
        if h[i + j] != n[j] {
            assert(h@.subrange(i as int, i + n@.len())[j as int] == h@[i + j]);
            return false;
        }
        j = j + 1;
    }
    assert(h@.subrange(i as int, i + n@.len()) =~= n@);
    true
}

/// Appends every character of `r` at the end of `out`.
fn append_all(out: &mut Vec<char>, r: &Vec<char>)
    ensures
        final(out)@ == old(out)@ + r@,
{
    let mut j: usize = 0;
    while j < r.len()
        invariant
            j <= r@.len(),
            out@ == old(out)@ + r@.subrange(0, j as int),
        decreases r@.len() - j,
    {
        out.push(r[j]);
        assert(out@ =~= old(out)@ + r@.subrange(0, j + 1 as int));
        j = j + 1;
    }
    assert(out@ =~= old(out)@ + r@);
}

/// The text `h` with every occurrence of `n` replaced by `r`, scanning
/// left to right without overlap.
pub fn replace_all(h: &Vec<char>, n: &Vec<char>, r: &Vec<char>) -> (out: Vec<char>)
    ensures
        out@ == spec_replace_all(h@, n@, r@),
{
    let mut out: Vec<char> = Vec::new();
    let mut i: usize = 0;
    assert(h@.subrange(0, h@.len() as int) =~= h@);
    assert(Seq::<char>::empty() + spec_replace_all(h@, n@, r@) =~= spec_replace_all(h@, n@, r@));
    while i < h.len()
        invariant
            i <= h@.len(),
            spec_replace_all(h@, n@, r@) == out@ + spec_replace_all(
                h@.subrange(i as int, h@.len() as int),
                n@,
                r@,
            ),
        decreases h@.len() - i,
    {
        let suffix_len = h.len() - i;
        let ghost suf = h@.subrange(i as int, h@.len() as int);
        let ghost prev = out@;
        if n.len() > 0 && n.len() <= suffix_len && matches_at(h, i, n) {
            append_all(&mut out, r);
            proof {
                let nsuf = h@.subrange(i + n@.len(), h@.len() as int);
                let rest = spec_replace_all(nsuf, n@, r@);
                assert(suf.subrange(0, n@.len() as int) =~= h@.subrange(i as int, i + n@.len()));
                assert(suf.subrange(n@.len() as int, suf.len() as int) =~= nsuf);
                assert(spec_replace_all(suf, n@, r@) == r@ + rest);
                assert(prev + (r@ + rest) =~= (prev + r@) + rest);
            }
            i = i + n.len();
        } else {
            out.push(h[i]);
            proof {
                let nsuf = h@.subrange(i + 1, h@.len() as int);
                let rest = spec_replace_all(nsuf, n@, r@);
                assert(suf.subrange(1, suf.len() as int) =~= nsuf);
                assert(suf[0] == h@[i as int]);
                if n@.len() == 0 || suf.len() < n@.len() {
                    // the needle cannot match here nor in the shorter suffix:
                    // both sides are left as they stand
                    assert(spec_replace_all(suf, n@, r@) == suf);
                    assert(rest == nsuf);
                    assert(suf =~= seq![suf[0]] + nsuf);
                } else {
                    assert(suf.subrange(0, n@.len() as int) =~= h@.subrange(
                        i as int,
                        i + n@.len(),
                    ));
                    assert(spec_replace_all(suf, n@, r@) == seq![suf[0]] + rest);
                }
                assert(prev + (seq![suf[0]] + rest) =~= (prev + seq![suf[0]]) + rest);
                assert(prev + seq![suf[0]] =~= out@);
            }
            i = i + 1;
        }
    }
    assert(h@.subrange(i as int, h@.len() as int) =~= Seq::<char>::empty());
    assert(spec_replace_all(Seq::<char>::empty(), n@, r@) == Seq::<char>::empty());
    assert(out@ + Seq::<char>::empty() =~= out@);
    out
}

} // verus!
