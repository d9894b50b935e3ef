//! The textual patterns that classify an input line: a point binding
//! (`P = (1, 2)`), a variable binding (`a = 3`), an explicit function
//! (`y = x^2`), an implicit curve (`x^2 + y - 1 = 0`) and a parametric
//! pair (`x(t) = t, y(t) = t^2`), tried in that fixed priority order.

use vstd::prelude::*;
use crate::spec_is_word_char;
use crate::is_word_char;
use crate::text::spec_find_char;
use crate::text::spec_skip_spaces;
use crate::text::spec_trim;
use crate::text::lemma_find_char;
use crate::text::lemma_skip_spaces;
use crate::text::find_char;
use crate::text::skip_spaces;
use crate::text::trim;
use crate::text::subrange_of;
use crate::numlit::spec_is_float_literal;
use crate::numlit::is_float_literal;
use crate::subst::spec_point_of;
use crate::subst::point_of;
use crate::subst::lines_view;
use crate::text::chars_of;
use crate::text::string_from_chars;

verus! {

/// Whether every character of `s` is an ASCII word character.
pub open spec fn spec_all_word_chars(s: Seq<char>) -> bool {
    forall|i: int| 0 <= i < s.len() ==> spec_is_word_char(#[trigger] s[i])
}

/// Whether the line binds a variable: it splits at its first `=` into a
/// nonempty all-word-character name and a right-hand side that trims to
/// a floating-point literal.
pub open spec fn spec_is_variable(line: Seq<char>) -> bool {
    let e = spec_find_char(line, '=', 0);
    e < line.len() && {
        let name = spec_trim(line.subrange(0, e));
        let value = spec_trim(line.subrange(e + 1, line.len() as int));
        name.len() > 0 && spec_all_word_chars(name) && spec_is_float_literal(value)
    }
}

/// The name a variable line binds: the trimmed text left of the first
/// `=`.
pub open spec fn spec_variable_name(line: Seq<char>) -> Seq<char> {
    spec_trim(line.subrange(0, spec_find_char(line, '=', 0)))
}

/// The value text a variable line binds: the trimmed text right of the
/// first `=`, kept as the literal it was written with.
pub open spec fn spec_variable_value(line: Seq<char>) -> Seq<char> {
    spec_trim(line.subrange(spec_find_char(line, '=', 0) + 1, line.len() as int))
}

/// The point pattern matched at position `i` of `s`: a word character,
/// optional whitespace, `=`, optional whitespace, `(`, a nonempty
/// comma-free x text, `,`, optional whitespace, a nonempty y text, `)`.
/// The x text runs to the first comma after the parenthesis; the y text
/// runs to the first closing parenthesis after that comma, with leading
/// whitespace dropped while at least one character is kept.
pub open spec fn spec_point_match_at(s: Seq<char>, i: int) -> Option<(char, Seq<char>, Seq<char>)> {
    if !(0 <= i < s.len() && spec_is_word_char(s[i])) {
        None
    } else {
        let e = spec_skip_spaces(s, i + 1);
        if !(e < s.len() && s[e] == '=') {
            None
        } else {
            let o = spec_skip_spaces(s, e + 1);
            if !(o < s.len() && s[o] == '(') {
                None
            } else {
                let p = spec_find_char(s, ',', o + 1);
                if !(p < s.len() && p > o + 1) {
                    None
                } else {
                    let r = spec_find_char(s, ')', p + 1);
                    if !(r < s.len() && r > p + 1) {
                        None
                    } else {
                        let w = spec_skip_spaces(s, p + 1);
                        let q = if w < r {
                            w
                        } else {
                            r - 1
                        };
                        Some((s[i], s.subrange(o + 1, p), s.subrange(q, r)))
                    }
                }
            }
        }
    }
}

/// The leftmost point-pattern match at or after position `i`.
pub open spec fn spec_point_match_from(s: Seq<char>, i: int) -> Option<
    (char, Seq<char>, Seq<char>),
>
    decreases s.len() - i,
{
    if i < 0 || i >= s.len() {
        None
    } else if spec_point_match_at(s, i) is Some {
        spec_point_match_at(s, i)
    } else {
        spec_point_match_from(s, i + 1)
    }
}

/// The leftmost point-pattern match in `s`.
pub open spec fn spec_point_match(s: Seq<char>) -> Option<(char, Seq<char>, Seq<char>)> {
    spec_point_match_from(s, 0)
}

/// Whether the line has the explicit form `y = <body>`: the text left of
/// the first `=` trims to the single letter `y` and the right-hand side
/// trims to a nonempty body.
pub open spec fn spec_is_explicit(line: Seq<char>) -> bool {
    let e = spec_find_char(line, '=', 0);
    e < line.len() && spec_trim(line.subrange(0, e)) == seq!['y'] && spec_trim(
        line.subrange(e + 1, line.len() as int),
    ).len() > 0
}

/// The body of an explicit line: the trimmed right-hand side.
pub open spec fn spec_explicit_body(line: Seq<char>) -> Seq<char> {
    spec_trim(line.subrange(spec_find_char(line, '=', 0) + 1, line.len() as int))
}

/// Whether the line has the implicit form `<body> = 0`: the right-hand
/// side of the first `=` trims to the single digit `0` and the left side
/// trims to a nonempty body.
pub open spec fn spec_is_implicit(line: Seq<char>) -> bool {
    let e = spec_find_char(line, '=', 0);
    e < line.len() && spec_trim(line.subrange(e + 1, line.len() as int)) == seq!['0']
        && spec_trim(line.subrange(0, e)).len() > 0
}

/// The body of an implicit line: the trimmed left-hand side.
pub open spec fn spec_implicit_body(line: Seq<char>) -> Seq<char> {
    spec_trim(line.subrange(0, spec_find_char(line, '=', 0)))
}

/// One component of a parametric line: the part trims to `v(t)`,
/// optional whitespace, `=`, and a nonempty body, where `v` names the
/// coordinate (`x` or `y`). The body is the trimmed text after the `=`.
pub open spec fn spec_param_part(part: Seq<char>, v: char) -> Option<Seq<char>> {
    let t = spec_trim(part);
    if t.len() >= 4 && t[0] == v && t[1] == '(' && t[2] == 't' && t[3] == ')' {
        let e = spec_skip_spaces(t, 4);
        if e < t.len() && t[e] == '=' {
            let b = spec_trim(t.subrange(e + 1, t.len() as int));
            if b.len() > 0 {
                Some(b)
            } else {
                None
            }
        } else {
            None
        }
    } else {
        None
    }
}

/// Whether the line has the parametric form `x(t) = <body1>, y(t) =
/// <body2>`, split at its first comma.
pub open spec fn spec_is_parametric(line: Seq<char>) -> bool {
    let c = spec_find_char(line, ',', 0);
    c < line.len() && spec_param_part(line.subrange(0, c), 'x') is Some && spec_param_part(
        line.subrange(c + 1, line.len() as int),
        'y',
    ) is Some
}

/// The two bodies of a parametric line.
pub open spec fn spec_parametric_bodies(line: Seq<char>) -> (Seq<char>, Seq<char>) {
    let c = spec_find_char(line, ',', 0);
    (
        spec_param_part(line.subrange(0, c), 'x')->0,
        spec_param_part(line.subrange(c + 1, line.len() as int), 'y')->0,
    )
}

/// Decides whether every character of `v` is an ASCII word character.
pub fn all_word_chars(v: &Vec<char>) -> (r: bool)
    ensures
        r == spec_all_word_chars(v@),
{
    let mut i: usize = 0;
    while i < v.len()
        invariant
            i <= v@.len(),
            forall|j: int| 0 <= j < i ==> spec_is_word_char(#[trigger] v@[j]),
        decreases v@.len() - i,
    {
        if !is_word_char(v[i]) {
            return false;
        }
        i = i + 1;
    }
    true
}

/// Splits a variable line into its name and its value text, or decides
/// that the line binds no variable.
pub fn variable_of(line: &Vec<char>) -> (r: Option<(Vec<char>, Vec<char>)>)
    ensures
        match r {
            Some((n, v)) => spec_is_variable(line@) && n@ == spec_variable_name(line@) && v@
                == spec_variable_value(line@),
            None => !spec_is_variable(line@),
        },
{
    let e = find_char(line, '=', 0);
    if e == line.len() {
        return None;
    }
    let name = trim(&subrange_of(line, 0, e));
    let value = trim(&subrange_of(line, e + 1, line.len()));
    if name.len() > 0 && all_word_chars(&name) && is_float_literal(&value) {
        Some((name, value))
    } else {
        None
    }
}

/// Attempts the point pattern at one position.
fn point_match_at(s: &Vec<char>, i: usize) -> (r: Option<(char, Vec<char>, Vec<char>)>)
    requires
        i < s@.len(),
    ensures
        match r {
            Some((nm, xs, ys)) => spec_point_match_at(s@, i as int) == Some((nm, xs@, ys@)),
            None => spec_point_match_at(s@, i as int) is None,
        },
{
    let n = s.len();
    if !is_word_char(s[i]) {
        return None;
    }
    let e = skip_spaces(s, i + 1);
    if !(e < n && s[e] == '=') {
        return None;
    }
    let o = skip_spaces(s, e + 1);
    if !(o < n && s[o] == '(') {
        return None;
    }
    let p = find_char(s, ',', o + 1);
    if !(p < n && p > o + 1) {
        return None;
    }
    let r = find_char(s, ')', p + 1);
    if !(r < n && r > p + 1) {
        return None;
    }
    let w = skip_spaces(s, p + 1);
    let q: usize = if w < r {
        w
    } else {
        r - 1
    };
    proof {
        lemma_skip_spaces(s@, p + 1 as int);
        lemma_find_char(s@, ')', p + 1 as int);
    }
    let xs = subrange_of(s, o + 1, p);
    let ys = subrange_of(s, q, r);
    Some((s[i], xs, ys))
}

/// Finds the leftmost point-pattern match in `s`.
pub fn point_match(s: &Vec<char>) -> (r: Option<(char, Vec<char>, Vec<char>)>)
    ensures
        match r {
            Some((nm, xs, ys)) => spec_point_match(s@) == Some((nm, xs@, ys@)),
            None => spec_point_match(s@) is None,
        },
{
    let mut i: usize = 0;
    while i < s.len()
        invariant
            i <= s@.len(),
            spec_point_match(s@) == spec_point_match_from(s@, i as int),
        decreases s@.len() - i,
    {
        let m = point_match_at(s, i);
        if m.is_some() {
            return m;
        }
        i = i + 1;
    }
    None
}

/// Splits an explicit line into its body, or decides the line is not
/// explicit.
pub fn explicit_of(line: &Vec<char>) -> (r: Option<Vec<char>>)
    ensures
        match r {
            Some(b) => spec_is_explicit(line@) && b@ == spec_explicit_body(line@),
            None => !spec_is_explicit(line@),
        },
{
    let e = find_char(line, '=', 0);
    if e == line.len() {
        return None;
    }
    let lhs = trim(&subrange_of(line, 0, e));
    let body = trim(&subrange_of(line, e + 1, line.len()));
    if lhs.len() == 1 && lhs[0] == 'y' && body.len() > 0 {
        assert(lhs@ =~= seq!['y']);
        Some(body)
    } else {
        assert(lhs@ == seq!['y'] ==> lhs@.len() == 1 && lhs@[0] == 'y');
        None
    }
}

/// Splits an implicit line into its body, or decides the line is not
/// implicit.
pub fn implicit_of(line: &Vec<char>) -> (r: Option<Vec<char>>)
    ensures
        match r {
            Some(b) => spec_is_implicit(line@) && b@ == spec_implicit_body(line@),
            None => !spec_is_implicit(line@),
        },
{
    let e = find_char(line, '=', 0);
    if e == line.len() {
        return None;
    }
    let rhs = trim(&subrange_of(line, e + 1, line.len()));
    let body = trim(&subrange_of(line, 0, e));
    if rhs.len() == 1 && rhs[0] == '0' && body.len() > 0 {
        assert(rhs@ =~= seq!['0']);
        Some(body)
    } else {
        assert(rhs@ == seq!['0'] ==> rhs@.len() == 1 && rhs@[0] == '0');
        None
    }
}

/// Splits one component of a parametric line into its body.
fn param_part_of(part: &Vec<char>, v: char) -> (r: Option<Vec<char>>)
    ensures
        match r {
            Some(b) => spec_param_part(part@, v) == Some(b@),
            None => spec_param_part(part@, v) is None,
        },
{
    let t = trim(part);
    if !(t.len() >= 4 && t[0] == v && t[1] == '(' && t[2] == 't' && t[3] == ')') {
        return None;
    }
    let e = skip_spaces(&t, 4);
    if !(e < t.len() && t[e] == '=') {
        return None;
    }
    let b = trim(&subrange_of(&t, e + 1, t.len()));
    if b.len() > 0 {
        Some(b)
    } else {
        None
    }
}

/// Splits a parametric line into its two bodies, or decides the line is
/// not parametric.
pub fn parametric_of(line: &Vec<char>) -> (r: Option<(Vec<char>, Vec<char>)>)
    ensures
        match r {
            Some((bx, by)) => spec_is_parametric(line@) && (bx@, by@) == spec_parametric_bodies(
                line@,
            ),
            None => !spec_is_parametric(line@),
        },
{
    let c = find_char(line, ',', 0);
    if c == line.len() {
        return None;
    }
    let left = subrange_of(line, 0, c);
    let right = subrange_of(line, c + 1, line.len());
    let bx = param_part_of(&left, 'x');
    let by = param_part_of(&right, 'y');
    match (bx, by) {
        (Some(bx), Some(by)) => Some((bx, by)),
        _ => None,
    }
}

/// What a line denotes, at the specification level: value texts are
/// character sequences.
pub enum SpecClassification {
    Point { name: char, x: Seq<char>, y: Seq<char> },
    Variable { name: Seq<char>, value: Seq<char> },
    Explicit { body: Seq<char> },
    Implicit { body: Seq<char> },
    Parametric { x_body: Seq<char>, y_body: Seq<char> },
    Unrecognized,
}

/// The classification of a line under a collection, with its fixed
/// priority order: point, then variable, then the function forms
/// explicit before implicit before parametric; a line matching none of
/// the patterns is unrecognized. Only the point form reads the
/// collection (its coordinates resolve under the collection's
/// variables); every other form depends on the line alone.
pub open spec fn spec_classify(line: Seq<char>, ctx: Seq<Seq<char>>) -> SpecClassification {
    match spec_point_of(line, ctx) {
        Some((nm, xt, yt)) => SpecClassification::Point { name: nm, x: xt, y: yt },
        None => if spec_is_variable(line) {
            SpecClassification::Variable {
                name: spec_variable_name(line),
                value: spec_variable_value(line),
            }
        } else if spec_is_explicit(line) {
            SpecClassification::Explicit { body: spec_explicit_body(line) }
        } else if spec_is_implicit(line) {
            SpecClassification::Implicit { body: spec_implicit_body(line) }
        } else if spec_is_parametric(line) {
            SpecClassification::Parametric {
                x_body: spec_parametric_bodies(line).0,
                y_body: spec_parametric_bodies(line).1,
            }
        } else {
            SpecClassification::Unrecognized
        },
    }
}

/// What a line denotes: a point with resolved coordinate texts, a
/// variable binding, one of the three function forms, or nothing the
/// library recognizes.
#[derive(Debug, Clone, PartialEq, Eq)]
pub enum Classification {
    Point { name: char, x: String, y: String },
    Variable { name: String, value: String },
    Explicit { body: String },
    Implicit { body: String },
    Parametric { x_body: String, y_body: String },
    Unrecognized,
}

impl View for Classification {
    type V = SpecClassification;

    open spec fn view(&self) -> SpecClassification {
        match self {
            Classification::Point { name, x, y } => SpecClassification::Point {
                name: *name,
                x: x@,
                y: y@,
            },
            Classification::Variable { name, value } => SpecClassification::Variable {
                name: name@,
                value: value@,
            },
            Classification::Explicit { body } => SpecClassification::Explicit { body: body@ },
            Classification::Implicit { body } => SpecClassification::Implicit { body: body@ },
            Classification::Parametric { x_body, y_body } => SpecClassification::Parametric {
                x_body: x_body@,
                y_body: y_body@,
            },
            Classification::Unrecognized => SpecClassification::Unrecognized,
        }
    }
}

/// Classifies one line under a collection, trying the patterns in their
/// fixed priority order.
pub fn classify(line: &str, context: &Vec<String>) -> (c: Classification)
    ensures
        c@ == spec_classify(line@, lines_view(context@)),
{
    let lc = chars_of(line);
    if let Some((nm, xt, yt)) = point_of(&lc, context) {
        return Classification::Point {
            name: nm,
            x: string_from_chars(&xt),
            y: string_from_chars(&yt),
        };
    }
    if let Some((n, v)) = variable_of(&lc) {
        return Classification::Variable {
            name: string_from_chars(&n),
            value: string_from_chars(&v),
        };
    }
    if let Some(b) = explicit_of(&lc) {
        return Classification::Explicit { body: string_from_chars(&b) };
    }
    if let Some(b) = implicit_of(&lc) {
        return Classification::Implicit { body: string_from_chars(&b) };
    }
    if let Some((bx, by)) = parametric_of(&lc) {
        return Classification::Parametric {
            x_body: string_from_chars(&bx),
            y_body: string_from_chars(&by),
        };
    }
    Classification::Unrecognized
}

} // verus!
