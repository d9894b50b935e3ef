//! The substitution engine: every variable binding in the input
//! collection replaces its name in an expression text, and every point
//! binding replaces its coordinate accessors (`name.x`, `name.y`), in
//! collection order. Replacement is textual, so a name is replaced even
//! inside a longer identifier.

use vstd::prelude::*;
use crate::text::chars_of;
use crate::text::string_from_chars;
use crate::text::trim;
use crate::text::spec_trim;
use crate::classify::spec_is_variable;
use crate::classify::spec_variable_name;
use crate::classify::spec_variable_value;
use crate::classify::variable_of;
use crate::classify::spec_point_match;
use crate::classify::point_match;
use crate::replace::spec_replace_all;
use crate::replace::spec_occurs;
use crate::replace::replace_all;
use crate::replace::lemma_replace_all_no_occurrence;
use crate::numlit::spec_is_float_literal;
use crate::numlit::is_float_literal;

verus! {

/// The texts of the input lines, one character sequence per line.
pub open spec fn lines_view(ctx: Seq<String>) -> Seq<Seq<char>> {
    Seq::new(ctx.len(), |i: int| ctx[i]@)
}

/// The text `b` after the variable bindings among the first `k` lines of
/// `ctx` replaced their names, in line order.
pub open spec fn spec_subst_vars_upto(b: Seq<char>, ctx: Seq<Seq<char>>, k: int) -> Seq<char>
    decreases k,
{
    if k <= 0 {
        b
    } else {
        let prev = spec_subst_vars_upto(b, ctx, k - 1);
        let l = ctx[k - 1];
        if spec_is_variable(l) {
            spec_replace_all(prev, spec_variable_name(l), spec_variable_value(l))
        } else {
            prev
        }
    }
}

/// The text `b` after every variable binding of `ctx` replaced its name,
/// in line order.
pub open spec fn spec_subst_vars(b: Seq<char>, ctx: Seq<Seq<char>>) -> Seq<char> {
    spec_subst_vars_upto(b, ctx, ctx.len() as int)
}

/// Applies every variable binding of `context` to `body`, in line order.
pub fn subst_vars(body: &Vec<char>, context: &Vec<String>) -> (r: Vec<char>)
    ensures
        r@ == spec_subst_vars(body@, lines_view(context@)),
{
    let mut cur = crate::text::subrange_of(body, 0, body.len());
    assert(cur@ =~= body@);
    let mut j: usize = 0;
    while j < context.len()
        invariant
            j <= context@.len(),
            cur@ == spec_subst_vars_upto(body@, lines_view(context@), j as int),
        decreases context@.len() - j,
    {
        let line = chars_of(context[j].as_str());
        assert(line@ == lines_view(context@)[j as int]);
        if let Some((n, v)) = variable_of(&line) {
            cur = replace_all(&cur, &n, &v);
        }
        j = j + 1;
    }
    cur
}

/// The point a line denotes under a collection: variables substitute
/// into the line first, then the point pattern must match, and both
/// captured coordinates must trim to floating-point literals, which
/// become the point's value texts.
pub open spec fn spec_point_of(line: Seq<char>, ctx: Seq<Seq<char>>) -> Option<
    (char, Seq<char>, Seq<char>),
> {
    let sub = spec_subst_vars(line, ctx);
    match spec_point_match(sub) {
        Some((nm, xs, ys)) => {
            let xt = spec_trim(xs);
            let yt = spec_trim(ys);
            if spec_is_float_literal(xt) && spec_is_float_literal(yt) {
                Some((nm, xt, yt))
            } else {
                None
            }
        },
        None => None,
    }
}

/// Resolves a line as a point under a collection, handing back its name
/// and its two coordinate value texts.
pub fn point_of(line: &Vec<char>, context: &Vec<String>) -> (r: Option<(char, Vec<char>, Vec<char>)>)
    ensures
        match r {
            Some((nm, x, y)) => spec_point_of(line@, lines_view(context@)) == Some((nm, x@, y@)),
            None => spec_point_of(line@, lines_view(context@)) is None,
        },
{
    let sub = subst_vars(line, context);
    match point_match(&sub) {
        Some((nm, xs, ys)) => {
            let xt = trim(&xs);
            let yt = trim(&ys);
            if is_float_literal(&xt) && is_float_literal(&yt) {
                Some((nm, xt, yt))
            } else {
                None
            }
        },
        None => None,
    }
}

/// The accessor text `<name>.x` or `<name>.y` of a point.
pub open spec fn spec_accessor(nm: char, coord: char) -> Seq<char> {
    seq![nm, '.', coord]
}

/// One line's effect on a text: a variable binding replaces its name, a
/// point binding replaces its two coordinate accessors (`.x` first),
/// any other line changes nothing.
pub open spec fn spec_subst_step(b: Seq<char>, l: Seq<char>, ctx: Seq<Seq<char>>) -> Seq<char> {
    if spec_is_variable(l) {
        spec_replace_all(b, spec_variable_name(l), spec_variable_value(l))
    } else {
        match spec_point_of(l, ctx) {
            Some((nm, xt, yt)) => spec_replace_all(
                spec_replace_all(b, spec_accessor(nm, 'x'), xt),
                spec_accessor(nm, 'y'),
                yt,
            ),
            None => b,
        }
    }
}

/// The text `b` after the first `k` lines of `ctx` applied their
/// bindings, in line order.
pub open spec fn spec_substitute_upto(b: Seq<char>, ctx: Seq<Seq<char>>, k: int) -> Seq<char>
    decreases k,
{
    if k <= 0 {
        b
    } else {
        spec_subst_step(spec_substitute_upto(b, ctx, k - 1), ctx[k - 1], ctx)
    }
}

/// The text `b` after every line of `ctx` applied its bindings, in line
/// order: what the evaluator receives in place of `b`.
pub open spec fn spec_substitute(b: Seq<char>, ctx: Seq<Seq<char>>) -> Seq<char> {
    spec_substitute_upto(b, ctx, ctx.len() as int)
}

/// Applies every variable and point binding of `context` to `body`, in
/// line order: variable names are replaced by their value texts, point
/// accessors by their coordinate texts.
pub fn substitute(body: &str, context: &Vec<String>) -> (r: String)
    ensures
        r@ == spec_substitute(body@, lines_view(context@)),
{
    let bc = chars_of(body);
    let mut cur = bc;
    let mut j: usize = 0;
    while j < context.len()
        invariant
            j <= context@.len(),
            cur@ == spec_substitute_upto(body@, lines_view(context@), j as int),
        decreases context@.len() - j,
    {
        let line = chars_of(context[j].as_str());
        assert(line@ == lines_view(context@)[j as int]);
        if let Some((n, v)) = variable_of(&line) {
            cur = replace_all(&cur, &n, &v);
        } else if let Some((nm, xt, yt)) = point_of(&line, context) {
            let mut nx: Vec<char> = Vec::new();
            nx.push(nm);
            nx.push('.');
            nx.push('x');
            assert(nx@ =~= spec_accessor(nm, 'x'));
            let mut ny: Vec<char> = Vec::new();
            ny.push(nm);
            ny.push('.');
            ny.push('y');
            assert(ny@ =~= spec_accessor(nm, 'y'));
            cur = replace_all(&cur, &nx, &xt);
            cur = replace_all(&cur, &ny, &yt);
        }
        j = j + 1;
    }
    string_from_chars(&cur)
}

/// Substitution changes nothing where no binding of the collection names
/// anything that occurs in the text: a text free of every bound variable
/// name and of every point accessor comes back as it stands.
pub proof fn lemma_substitute_absent(b: Seq<char>, ctx: Seq<Seq<char>>)
    requires
        forall|k: int|
            0 <= k < ctx.len() ==> (spec_is_variable(#[trigger] ctx[k]) ==> !spec_occurs(
                b,
                spec_variable_name(ctx[k]),
            )),
        forall|k: int|
            0 <= k < ctx.len() ==> match spec_point_of(#[trigger] ctx[k], ctx) {
                Some(t) => !spec_occurs(b, spec_accessor(t.0, 'x')) && !spec_occurs(
                    b,
                    spec_accessor(t.0, 'y'),
                ),
                None => true,
            },
    ensures
        spec_substitute(b, ctx) == b,
{
    lemma_substitute_upto_absent(b, ctx, ctx.len() as int);
}

proof fn lemma_substitute_upto_absent(b: Seq<char>, ctx: Seq<Seq<char>>, k: int)
    requires
        k <= ctx.len(),
        forall|j: int|
            0 <= j < ctx.len() ==> (spec_is_variable(#[trigger] ctx[j]) ==> !spec_occurs(
                b,
                spec_variable_name(ctx[j]),
            )),
        forall|j: int|
            0 <= j < ctx.len() ==> match spec_point_of(#[trigger] ctx[j], ctx) {
                Some(t) => !spec_occurs(b, spec_accessor(t.0, 'x')) && !spec_occurs(
                    b,
                    spec_accessor(t.0, 'y'),
                ),
                None => true,
            },
    ensures
        spec_substitute_upto(b, ctx, k) == b,
    decreases k,
{
    if k > 0 {
        lemma_substitute_upto_absent(b, ctx, k - 1);
        let l = ctx[k - 1];
        if spec_is_variable(l) {
            lemma_replace_all_no_occurrence(b, spec_variable_name(l), spec_variable_value(l));
        } else {
            match spec_point_of(l, ctx) {
                Some(t) => {
                    lemma_replace_all_no_occurrence(b, spec_accessor(t.0, 'x'), t.1);
                    lemma_replace_all_no_occurrence(b, spec_accessor(t.0, 'y'), t.2);
                },
                None => {},
            }
        }
    }
}

/// Replacement is literal and leaves no occurrence behind: under a
/// collection of one variable line binding a single-character name to a
/// value free of that character, the substituted text no longer holds
/// the character anywhere — also where it stood inside a longer
/// identifier.
pub proof fn lemma_substitute_removes_single_char_name(b: Seq<char>, line: Seq<char>, c: char)
    requires
        spec_is_variable(line),
        spec_variable_name(line) == seq![c],
        !spec_variable_value(line).contains(c),
    ensures
        !spec_substitute(b, seq![line]).contains(c),
{
    let ctx = seq![line];
    assert(spec_substitute_upto(b, ctx, 0) == b);
    assert(spec_substitute(b, ctx) == spec_subst_step(b, line, ctx));
    crate::replace::lemma_replace_all_removes_char(b, c, spec_variable_value(line));
}

/// A collection with no variable binding substitutes nothing into a
/// text by its variables alone.
pub proof fn lemma_subst_vars_no_variables(b: Seq<char>, ctx: Seq<Seq<char>>)
    requires
        forall|k: int| 0 <= k < ctx.len() ==> !spec_is_variable(#[trigger] ctx[k]),
    ensures
        spec_subst_vars(b, ctx) == b,
{
    lemma_subst_vars_upto_no_variables(b, ctx, ctx.len() as int);
}

proof fn lemma_subst_vars_upto_no_variables(b: Seq<char>, ctx: Seq<Seq<char>>, k: int)
    requires
        k <= ctx.len(),
        forall|j: int| 0 <= j < ctx.len() ==> !spec_is_variable(#[trigger] ctx[j]),
    ensures
        spec_subst_vars_upto(b, ctx, k) == b,
    decreases k,
{
    if k > 0 {
        lemma_subst_vars_upto_no_variables(b, ctx, k - 1);
    }
}

} // verus!
