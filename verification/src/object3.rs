//! The patterns of the spatial plotter's input lines: a named point
//! `P = (x, y, z)`, a line `line(x0, y0, z0, x1, y1, z1)` whose first
//! argument doubles as its label, and a plane `plane(name, a, b, c, d)`.
//! Arguments stand between one opening parenthesis and the first closing
//! one, split at commas, and every coordinate must trim to a
//! floating-point literal.

use vstd::prelude::*;
use crate::spec_is_word_char;
use crate::is_word_char;
use crate::text::spec_find_char;
use crate::text::spec_skip_spaces;
use crate::text::spec_trim;
use crate::text::find_char;
use crate::text::skip_spaces;
use crate::text::trim;
use crate::text::subrange_of;
use crate::text::chars_of;
use crate::text::string_from_chars;
use crate::numlit::spec_is_float_literal;
use crate::numlit::is_float_literal;

verus! {

/// The argument texts between parentheses: the text split at every
/// comma. A text without commas is one argument; nothing is trimmed
/// here.
pub open spec fn spec_split_args(inner: Seq<char>) -> Seq<Seq<char>>
    decreases inner.len(),
    via spec_split_args_decreases
{
    let p = spec_find_char(inner, ',', 0);
    if p == inner.len() {
        seq![inner]
    } else {
        seq![inner.subrange(0, p)] + spec_split_args(inner.subrange(p + 1, inner.len() as int))
    }
}

#[via_fn]
proof fn spec_split_args_decreases(inner: Seq<char>) {
    crate::text::lemma_find_char(inner, ',', 0);
}

/// The views of a vector of argument texts.
pub open spec fn args_view(a: Seq<Vec<char>>) -> Seq<Seq<char>> {
    Seq::new(a.len(), |i: int| a[i]@)
}

/// Splits a text at every comma.
fn split_args(inner: &Vec<char>) -> (r: Vec<Vec<char>>)
    ensures
        args_view(r@) == spec_split_args(inner@),
        r@.len() >= 1,
    decreases inner@.len(),
{
    let p = find_char(inner, ',', 0);
    if p == inner.len() {
        let mut r: Vec<Vec<char>> = Vec::new();
        r.push(subrange_of(inner, 0, inner.len()));
        assert(r@[0]@ =~= inner@);
        assert(args_view(r@) =~= spec_split_args(inner@));
        r
    } else {
        proof {
            crate::text::lemma_find_char(inner@, ',', 0);
        }
        let tail = subrange_of(inner, p + 1, inner.len());
        let mut rest = split_args(&tail);
        let head = subrange_of(inner, 0, p);
        rest.insert(0, head);
        assert(args_view(rest@) =~= spec_split_args(inner@));
        rest
    }
}

/// The three-coordinate point pattern matched at position `i`: a word
/// character, optional whitespace, `=`, optional whitespace, and three
/// comma-separated arguments in parentheses.
pub open spec fn spec_point3_match_at(s: Seq<char>, i: int) -> Option<(char, Seq<Seq<char>>)> {
    if !(0 <= i < s.len() && spec_is_word_char(s[i])) {
        None
    } else {
        let e = spec_skip_spaces(s, i + 1);
        if !(e < s.len() && s[e] == '=') {
            None
        } else {
            let o = spec_skip_spaces(s, e + 1);
            if !(o < s.len() && s[o] == '(') {
                None
            } else {
                let r = spec_find_char(s, ')', o + 1);
                if !(r < s.len()) {
                    None
                } else {
                    let args = spec_split_args(s.subrange(o + 1, r));
                    if args.len() == 3 {
                        Some((s[i], args))
                    } else {
                        None
                    }
                }
            }
        }
    }
}

/// The leftmost three-coordinate point match at or after position `i`.
pub open spec fn spec_point3_match_from(s: Seq<char>, i: int) -> Option<(char, Seq<Seq<char>>)>
    decreases s.len() - i,
{
    if i < 0 || i >= s.len() {
        None
    } else if spec_point3_match_at(s, i) is Some {
        spec_point3_match_at(s, i)
    } else {
        spec_point3_match_from(s, i + 1)
    }
}

/// The keyword pattern matched at position `i`: the keyword itself,
/// optional whitespace, and arguments in parentheses.
pub open spec fn spec_kw_match_at(s: Seq<char>, kw: Seq<char>, i: int) -> Option<Seq<Seq<char>>> {
    if !(0 <= i && i + kw.len() <= s.len() && s.subrange(i, i + kw.len()) == kw) {
        None
    } else {
        let o = spec_skip_spaces(s, i + kw.len());
        if !(o < s.len() && s[o] == '(') {
            None
        } else {
            let r = spec_find_char(s, ')', o + 1);
            if !(r < s.len()) {
                None
            } else {
                Some(spec_split_args(s.subrange(o + 1, r)))
            }
        }
    }
}

/// The leftmost keyword match at or after position `i`.
pub open spec fn spec_kw_match_from(s: Seq<char>, kw: Seq<char>, i: int) -> Option<Seq<Seq<char>>>
    decreases s.len() - i,
{
    if i < 0 || i >= s.len() {
        None
    } else if spec_kw_match_at(s, kw, i) is Some {
        spec_kw_match_at(s, kw, i)
    } else {
        spec_kw_match_from(s, kw, i + 1)
    }
}

/// A spatial object, at the specification level.
pub enum SpecObject3D {
    Point { name: char, x: Seq<char>, y: Seq<char>, z: Seq<char> },
    Line {
        name: Seq<char>,
        x0: Seq<char>,
        y0: Seq<char>,
        z0: Seq<char>,
        x1: Seq<char>,
        y1: Seq<char>,
        z1: Seq<char>,
    },
    Plane { name: Seq<char>, a: Seq<char>, b: Seq<char>, c: Seq<char>, d: Seq<char> },
}

/// A spatial object: a named point, a line between two points whose
/// first coordinate text doubles as its label, or a named plane with
/// four coefficients. Coordinate values are carried as the literal
/// texts they were written with.
#[derive(Debug, Clone, PartialEq, Eq)]
pub enum Object3D {
    Point { name: char, x: String, y: String, z: String },
    Line {
        name: String,
        x0: String,
        y0: String,
        z0: String,
        x1: String,
        y1: String,
        z1: String,
    },
    Plane { name: String, a: String, b: String, c: String, d: String },
}

impl View for Object3D {
    type V = SpecObject3D;

    open spec fn view(&self) -> SpecObject3D {
        match self {
            Object3D::Point { name, x, y, z } => SpecObject3D::Point {
                name: *name,
                x: x@,
                y: y@,
                z: z@,
            },
            Object3D::Line { name, x0, y0, z0, x1, y1, z1 } => SpecObject3D::Line {
                name: name@,
                x0: x0@,
                y0: y0@,
                z0: z0@,
                x1: x1@,
                y1: y1@,
                z1: z1@,
            },
            Object3D::Plane { name, a, b, c, d } => SpecObject3D::Plane {
                name: name@,
                a: a@,
                b: b@,
                c: c@,
                d: d@,
            },
        }
    }
}

/// The keyword of the line pattern.
pub open spec fn spec_line_kw() -> Seq<char> {
    seq!['l', 'i', 'n', 'e']
}

/// The keyword of the plane pattern.
pub open spec fn spec_plane_kw() -> Seq<char> {
    seq!['p', 'l', 'a', 'n', 'e']
}

/// The object a line denotes: the point pattern is tried first, then
/// the line keyword, then the plane keyword. A pattern that matches
/// with the wrong number of arguments, or with a coordinate that does
/// not trim to a floating-point literal, yields nothing; later patterns
/// are not tried once one has matched.
pub open spec fn spec_parse_object(s: Seq<char>) -> Option<SpecObject3D> {
    match spec_point3_match_from(s, 0) {
        Some((nm, args)) => {
            let xt = spec_trim(args[0]);
            let yt = spec_trim(args[1]);
            let zt = spec_trim(args[2]);
            if spec_is_float_literal(xt) && spec_is_float_literal(yt) && spec_is_float_literal(
                zt,
            ) {
                Some(SpecObject3D::Point { name: nm, x: xt, y: yt, z: zt })
            } else {
                None
            }
        },
        None => match spec_kw_match_from(s, spec_line_kw(), 0) {
            Some(args) => if args.len() == 6 {
                let t0 = spec_trim(args[0]);
                let t1 = spec_trim(args[1]);
                let t2 = spec_trim(args[2]);
                let t3 = spec_trim(args[3]);
                let t4 = spec_trim(args[4]);
                let t5 = spec_trim(args[5]);
                if spec_is_float_literal(t0) && spec_is_float_literal(t1) && spec_is_float_literal(
                    t2,
                ) && spec_is_float_literal(t3) && spec_is_float_literal(t4)
                    && spec_is_float_literal(t5) {
                    Some(
                        SpecObject3D::Line {
                            name: t0,
                            x0: t0,
                            y0: t1,
                            z0: t2,
                            x1: t3,
                            y1: t4,
                            z1: t5,
                        },
                    )
                } else {
                    None
                }
            } else {
                None
            },
            None => match spec_kw_match_from(s, spec_plane_kw(), 0) {
                Some(args) => if args.len() == 5 {
                    let nt = spec_trim(args[0]);
                    let at = spec_trim(args[1]);
                    let bt = spec_trim(args[2]);
                    let ct = spec_trim(args[3]);
                    let dt = spec_trim(args[4]);
                    if spec_is_float_literal(at) && spec_is_float_literal(bt)
                        && spec_is_float_literal(ct) && spec_is_float_literal(dt) {
                        Some(SpecObject3D::Plane { name: nt, a: at, b: bt, c: ct, d: dt })
                    } else {
                        None
                    }
                } else {
                    None
                },
                None => None,
            },
        },
    }
}

/// Attempts the three-coordinate point pattern at one position.
fn point3_match_at(s: &Vec<char>, i: usize) -> (r: Option<(char, Vec<Vec<char>>)>)
    requires
        i < s@.len(),
    ensures
        match r {
            Some((nm, args)) => spec_point3_match_at(s@, i as int) == Some((
                nm,
                args_view(args@),
            )) && args@.len() == 3,
            None => spec_point3_match_at(s@, i as int) is None,
        },
{
    let n = s.len();
    if !is_word_char(s[i]) {
        return None;
    }
    let e = skip_spaces(s, i + 1);
    if !(e < n && s[e] == '=') {
        return None;
    }
    let o = skip_spaces(s, e + 1);
    if !(o < n && s[o] == '(') {
        return None;
    }
    let r = find_char(s, ')', o + 1);
    if !(r < n) {
        return None;
    }
    proof {
        crate::text::lemma_find_char(s@, ')', o + 1 as int);
    }
    let inner = subrange_of(s, o + 1, r);
    let args = split_args(&inner);
    if args.len() == 3 {
        Some((s[i], args))
    } else {
        None
    }
}

/// Finds the leftmost three-coordinate point match.
fn point3_match(s: &Vec<char>) -> (r: Option<(char, Vec<Vec<char>>)>)
    ensures
        match r {
            Some((nm, args)) => spec_point3_match_from(s@, 0) == Some((nm, args_view(args@)))
                && args@.len() == 3,
            None => spec_point3_match_from(s@, 0) is None,
        },
{
    let mut i: usize = 0;
    while i < s.len()
        invariant
            i <= s@.len(),
            spec_point3_match_from(s@, 0) == spec_point3_match_from(s@, i as int),
        decreases s@.len() - i,
    {
        let m = point3_match_at(s, i);
        if m.is_some() {
            return m;
        }
        i = i + 1;
    }
    None
}

/// Attempts the keyword pattern at one position.
fn kw_match_at(s: &Vec<char>, kw: &Vec<char>, i: usize) -> (r: Option<Vec<Vec<char>>>)
    requires
        i < s@.len(),
    ensures
        match r {
            Some(args) => spec_kw_match_at(s@, kw@, i as int) == Some(args_view(args@)),
            None => spec_kw_match_at(s@, kw@, i as int) is None,
        },
{
    let n = s.len();
    if kw.len() > n || i > n - kw.len() {
        assert(i + kw@.len() > s@.len());
        return None;
    }
    let mut j: usize = 0;
    while j < kw.len()
        invariant
            j <= kw@.len(),
            i + kw@.len() <= n == s@.len(),
            forall|k: int| 0 <= k < j ==> s@[i + k] == kw@[k],
        decreases kw@.len() - j,
    {
        if s[i + j] != kw[j] {
            assert(s@.subrange(i as int, i + kw@.len())[j as int] == s@[i + j]);
            return None;
        }
        j = j + 1;
    }
    assert(s@.subrange(i as int, i + kw@.len()) =~= kw@);
    let o = skip_spaces(s, i + kw.len());
    if !(o < n && s[o] == '(') {
        return None;
    }
    let r = find_char(s, ')', o + 1);
    if !(r < n) {
        return None;
    }
    proof {
        crate::text::lemma_find_char(s@, ')', o + 1 as int);
    }
    let inner = subrange_of(s, o + 1, r);
    Some(split_args(&inner))
}

/// Finds the leftmost keyword match.
fn kw_match(s: &Vec<char>, kw: &Vec<char>) -> (r: Option<Vec<Vec<char>>>)
    ensures
        match r {
            Some(args) => spec_kw_match_from(s@, kw@, 0) == Some(args_view(args@)),
            None => spec_kw_match_from(s@, kw@, 0) is None,
        },
{
    let mut i: usize = 0;
    while i < s.len()
        invariant
            i <= s@.len(),
            spec_kw_match_from(s@, kw@, 0) == spec_kw_match_from(s@, kw@, i as int),
        decreases s@.len() - i,
    {
        let m = kw_match_at(s, kw, i);
        if m.is_some() {
            return m;
        }
        i = i + 1;
    }
    None
}

/// Trims one argument and keeps it only as a floating-point literal.
fn literal_arg(args: &Vec<Vec<char>>, k: usize) -> (r: Option<Vec<char>>)
    requires
        k < args@.len(),
    ensures
        match r {
            Some(t) => t@ == spec_trim(args_view(args@)[k as int]) && spec_is_float_literal(t@),
            None => !spec_is_float_literal(spec_trim(args_view(args@)[k as int])),
        },
{
    let t = trim(&args[k]);
    if is_float_literal(&t) {
        Some(t)
    } else {
        None
    }
}

/// Parses a line of the spatial scene into an object: a point, a line
/// or a plane, with every coordinate kept as its literal text.
pub fn parse_object(line: &str) -> (r: Option<Object3D>)
    ensures
        match r {
            Some(o) => spec_parse_object(line@) == Some(o@),
            None => spec_parse_object(line@) is None,
        },
{
    let lc = chars_of(line);
    if let Some((nm, args)) = point3_match(&lc) {
        let xt = literal_arg(&args, 0);
        let yt = literal_arg(&args, 1);
        let zt = literal_arg(&args, 2);
        return match (xt, yt, zt) {
            (Some(x), Some(y), Some(z)) => Some(
                Object3D::Point {
                    name: nm,
                    x: string_from_chars(&x),
                    y: string_from_chars(&y),
                    z: string_from_chars(&z),
                },
            ),
            _ => None,
        };
    }
    let mut line_kw: Vec<char> = Vec::new();
    line_kw.push('l');
    line_kw.push('i');
    line_kw.push('n');
    line_kw.push('e');
    assert(line_kw@ =~= spec_line_kw());
    if let Some(args) = kw_match(&lc, &line_kw) {
        if args.len() != 6 {
            return None;
        }
        let t0 = literal_arg(&args, 0);
        let t1 = literal_arg(&args, 1);
        let t2 = literal_arg(&args, 2);
        let t3 = literal_arg(&args, 3);
        let t4 = literal_arg(&args, 4);
        let t5 = literal_arg(&args, 5);
        return match (t0, t1, t2, t3, t4, t5) {
            (Some(a0), Some(a1), Some(a2), Some(a3), Some(a4), Some(a5)) => Some(
                Object3D::Line {
                    name: string_from_chars(&a0),
                    x0: string_from_chars(&a0),
                    y0: string_from_chars(&a1),
                    z0: string_from_chars(&a2),
                    x1: string_from_chars(&a3),
                    y1: string_from_chars(&a4),
                    z1: string_from_chars(&a5),
                },
            ),
            _ => None,
        };
    }
    let mut plane_kw: Vec<char> = Vec::new();
    plane_kw.push('p');
    plane_kw.push('l');
    plane_kw.push('a');
    plane_kw.push('n');
    plane_kw.push('e');
    assert(plane_kw@ =~= spec_plane_kw());
    if let Some(args) = kw_match(&lc, &plane_kw) {
        if args.len() != 5 {
            return None;
        }
        let nt = trim(&args[0]);
        let at = literal_arg(&args, 1);
        let bt = literal_arg(&args, 2);
        let ct = literal_arg(&args, 3);
        let dt = literal_arg(&args, 4);
        return match (at, bt, ct, dt) {
            (Some(a), Some(b), Some(c), Some(d)) => Some(
                Object3D::Plane {
                    name: string_from_chars(&nt),
                    a: string_from_chars(&a),
                    b: string_from_chars(&b),
                    c: string_from_chars(&c),
                    d: string_from_chars(&d),
                },
            ),
            _ => None,
        };
    }
    None
}

} // verus!
