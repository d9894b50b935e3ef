//! The classifier's stated laws: a well-formed point line classifies as
//! exactly that point, a well-formed variable line as exactly that
//! variable, and the explicit form wins over the forms after it in the
//! priority order.

use vstd::prelude::*;
use crate::spec_is_word_char;
use crate::text::spec_find_char;
use crate::text::spec_skip_spaces;
use crate::text::spec_trim;
use crate::text::spec_trim_end;
use crate::text::lemma_find_char;
use crate::text::lemma_find_char_at;
use crate::text::lemma_skip_spaces;
use crate::text::lemma_skip_spaces_at;
use crate::text::lemma_trim_id;
use crate::numlit::spec_is_float_literal;
use crate::numlit::spec_all_digits;
use crate::numlit::lemma_float_literal_chars;
use crate::classify::spec_is_variable;
use crate::classify::spec_variable_name;
use crate::classify::spec_variable_value;
use crate::classify::spec_all_word_chars;
use crate::classify::spec_is_explicit;
use crate::classify::spec_is_implicit;
use crate::classify::spec_explicit_body;
use crate::classify::spec_point_match_at;
use crate::classify::spec_point_match_from;
use crate::classify::spec_point_match;
use crate::classify::spec_classify;
use crate::classify::SpecClassification;
use crate::subst::spec_point_of;
use crate::subst::lemma_subst_vars_no_variables;

verus! {

/// Where no position of a text matches the point pattern, the scan from
/// any position finds nothing.
pub proof fn lemma_point_match_from_none(s: Seq<char>, i: int)
    requires
        0 <= i,
        forall|j: int| #[trigger] spec_point_match_at(s, j) is None,
    ensures
        spec_point_match_from(s, i) is None,
    decreases s.len() - i,
{
    if i < s.len() {
        lemma_point_match_from_none(s, i + 1);
    }
}

/// A line written `N = (X, Y)` with a single word-character name and two
/// floating-point literals classifies as exactly that point, under any
/// collection that binds no variable.
pub proof fn lemma_point_line_classified(
    nm: char,
    xs: Seq<char>,
    ys: Seq<char>,
    ctx: Seq<Seq<char>>,
)
    requires
        spec_is_word_char(nm),
        spec_is_float_literal(xs),
        spec_is_float_literal(ys),
        forall|k: int| 0 <= k < ctx.len() ==> !spec_is_variable(#[trigger] ctx[k]),
    ensures
        spec_classify(seq![nm, ' ', '=', ' ', '('] + xs + seq![',', ' '] + ys + seq![')'], ctx)
            == (SpecClassification::Point { name: nm, x: xs, y: ys }),
{
    let line = seq![nm, ' ', '=', ' ', '('] + xs + seq![',', ' '] + ys + seq![')'];
    let xl = xs.len() as int;
    let yl = ys.len() as int;
    lemma_float_literal_chars(xs);
    lemma_float_literal_chars(ys);
    assert(line.len() == xl + yl + 8);
    assert(line[0] == nm && line[1] == ' ' && line[2] == '=' && line[3] == ' ' && line[4] == '(');
    assert(forall|i: int| 0 <= i < xl ==> line[5 + i] == xs[i]);
    assert(line[5 + xl] == ',' && line[6 + xl] == ' ');
    assert(forall|j: int| 0 <= j < yl ==> line[7 + xl + j] == ys[j]);
    assert(line[7 + xl + yl] == ')');
    lemma_skip_spaces_at(line, 1, 2);
    lemma_skip_spaces_at(line, 3, 4);
    assert(forall|j: int| 5 <= j < 5 + xl ==> #[trigger] line[j] != ',');
    lemma_find_char_at(line, ',', 5, 5 + xl);
    assert(forall|j: int| 6 + xl <= j < 7 + xl + yl ==> #[trigger] line[j] != ')');
    lemma_find_char_at(line, ')', 6 + xl, 7 + xl + yl);
    lemma_skip_spaces_at(line, 6 + xl, 7 + xl);
    assert(line.subrange(5, 5 + xl) =~= xs);
    assert(line.subrange(7 + xl, 7 + xl + yl) =~= ys);
    assert(spec_point_match_at(line, 0) == Some((nm, xs, ys)));
    assert(spec_point_match(line) == Some((nm, xs, ys)));
    lemma_subst_vars_no_variables(line, ctx);
    lemma_trim_id(xs);
    lemma_trim_id(ys);
    assert(spec_point_of(line, ctx) == Some((nm, xs, ys)));
}

/// A line written `NAME = VALUE` with a nonempty word-character name and
/// a floating-point literal value classifies as exactly that variable,
/// under any collection that binds no variable.
pub proof fn lemma_variable_line_classified(
    name: Seq<char>,
    value: Seq<char>,
    ctx: Seq<Seq<char>>,
)
    requires
        name.len() > 0,
        spec_all_word_chars(name),
        spec_is_float_literal(value),
        forall|k: int| 0 <= k < ctx.len() ==> !spec_is_variable(#[trigger] ctx[k]),
    ensures
        spec_classify(name + seq![' ', '=', ' '] + value, ctx) == (SpecClassification::Variable {
            name: name,
            value: value,
        }),
{
    let line = name + seq![' ', '=', ' '] + value;
    let nl = name.len() as int;
    let vl = value.len() as int;
    lemma_float_literal_chars(value);
    assert(line.len() == nl + 3 + vl);
    assert(forall|i: int| 0 <= i < nl ==> line[i] == name[i]);
    assert(line[nl] == ' ' && line[nl + 1] == '=' && line[nl + 2] == ' ');
    assert(forall|j: int| 0 <= j < vl ==> line[nl + 3 + j] == value[j]);
    assert(forall|i: int|
        0 <= i < line.len() && i != nl + 1 ==> #[trigger] line[i] != '=');
    lemma_find_char_at(line, '=', 0, nl + 1);
    let prefix = line.subrange(0, nl + 1);
    assert(forall|i: int| 0 <= i < nl ==> prefix[i] == name[i]);
    assert(prefix[nl] == ' ');
    lemma_skip_spaces_at(prefix, 0, 0);
    assert(spec_trim_end(prefix, nl + 1) == spec_trim_end(prefix, nl));
    assert(spec_trim_end(prefix, nl) == nl);
    assert(prefix.subrange(0, nl) =~= name);
    assert(spec_trim(prefix) == name);
    let suffix = line.subrange(nl + 2, line.len() as int);
    assert(suffix.len() == vl + 1);
    assert(suffix[0] == ' ');
    assert(forall|j: int| 0 <= j < vl ==> suffix[1 + j] == value[j]);
    lemma_skip_spaces_at(suffix, 0, 1);
    assert(spec_trim_end(suffix, vl + 1) == vl + 1);
    assert(suffix.subrange(1, vl + 1) =~= value);
    assert(spec_trim(suffix) == value);
    assert(spec_is_variable(line));
    assert(spec_variable_name(line) == name);
    assert(spec_variable_value(line) == value);
    assert forall|i: int| #[trigger] spec_point_match_at(line, i) is None by {
        if 0 <= i < line.len() && spec_is_word_char(line[i]) {
            let e = spec_skip_spaces(line, i + 1);
            lemma_skip_spaces(line, i + 1);
            if e < line.len() && line[e] == '=' {
                assert(e == nl + 1);
                lemma_skip_spaces_at(line, nl + 2, nl + 3);
                assert(line[nl + 3] == value[0]);
                assert(line[nl + 3] != '(');
            }
        }
    }
    lemma_point_match_from_none(line, 0);
    lemma_subst_vars_no_variables(line, ctx);
    assert(spec_point_of(line, ctx) is None);
}

/// A line that does not meet the variable pattern is never classified as
/// a variable, whatever the collection: in particular a line whose
/// right-hand side fails to read as a floating-point literal.
pub proof fn lemma_nonvariable_never_classified_variable(line: Seq<char>, ctx: Seq<Seq<char>>)
    requires
        !spec_is_variable(line),
    ensures
        !(spec_classify(line, ctx) is Variable),
{
}

/// The explicit form wins over every pattern after it in the priority
/// order: an explicit line that resolves as no point and binds no
/// variable is classified explicit, whether or not it also matches the
/// implicit or the parametric pattern.
pub proof fn lemma_explicit_has_priority(line: Seq<char>, ctx: Seq<Seq<char>>)
    requires
        spec_is_explicit(line),
        !spec_is_variable(line),
        spec_point_of(line, ctx) is None,
    ensures
        spec_classify(line, ctx) == (SpecClassification::Explicit {
            body: spec_explicit_body(line),
        }),
{
}

/// Function-form classification reads the line alone: two collections
/// under which the line resolves as no point classify it alike,
/// whatever lines they hold and in whatever order.
pub proof fn lemma_function_classification_ignores_collection(
    line: Seq<char>,
    ctx1: Seq<Seq<char>>,
    ctx2: Seq<Seq<char>>,
)
    requires
        spec_point_of(line, ctx1) is None,
        spec_point_of(line, ctx2) is None,
    ensures
        spec_classify(line, ctx1) == spec_classify(line, ctx2),
{
}

/// A line matching the explicit and the implicit pattern at once
/// (`y = 0` is the only shape) necessarily binds a variable: its name
/// trims to `y` and its right-hand side to the literal `0`, so the
/// variable rule, which precedes both, takes it.
pub proof fn lemma_explicit_and_implicit_is_variable(line: Seq<char>)
    requires
        spec_is_explicit(line),
        spec_is_implicit(line),
    ensures
        spec_is_variable(line),
{
    let e = spec_find_char(line, '=', 0);
    let name = spec_trim(line.subrange(0, e));
    let value = spec_trim(line.subrange(e + 1, line.len() as int));
    assert(name == seq!['y']);
    assert(value == seq!['0']);
    assert(spec_all_word_chars(name));
    let z = seq!['0'];
    lemma_find_char(z, 'e', 0);
    lemma_find_char(z, 'E', 0);
    lemma_find_char(z, '.', 0);
    assert(spec_find_char(z, 'e', 0) == 1);
    assert(spec_find_char(z, 'E', 0) == 1);
    assert(spec_find_char(z, '.', 0) == 1);
    assert(spec_all_digits(z));
    assert(spec_is_float_literal(z));
}

} // verus!
