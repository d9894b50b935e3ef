//! The evaluator: a substituted expression text with one free variable
//! is handed to the outside expression library together with an input
//! value, both as decimal text. Parse failures, evaluation failures and
//! non-finite outcomes all yield no value, never an error.

use vstd::prelude::*;
use exmex::prelude::Express;
use crate::text::chars_of;
use crate::subst::lines_view;
use crate::subst::spec_substitute;
use crate::subst::substitute;

verus! {

/// Names the outcome of handing an expression text and one input text to
/// the outside evaluator: `None` where parsing or evaluation fails,
/// otherwise the decimal text of the numeric result.
pub uninterp spec fn eval_of(expr: Seq<char>, x: Seq<char>) -> Option<Seq<char>>;

/// Relies on exmex::parse and exmex::prelude::Express::eval: parsing an
/// expression with one free variable and evaluating it at one input is
/// determined by the expression text and the input text alone. The input
/// text is read as a number through exmex::Val::to_float, and the result
/// is written back as decimal text. Parsing, conversion and evaluation
/// stand in this one body because the parsed expression and the numeric
/// values are of floating-point types the library cannot hold.
#[verifier::external_body]
fn eval_expr_text(expr: &str, x: &str) -> (r: Option<String>)
    ensures
        (match r {
            Some(t) => eval_of(expr@, x@) == Some(t@),
            None => eval_of(expr@, x@) is None,
        }),
{
    let ex = match exmex::parse(expr) {
        Ok(e) => e,
        Err(_) => return None,
    };
    let xf = match x.parse::<exmex::Val>() {
        Ok(v) => match v.to_float() {
            Ok(f) => f,
            Err(_) => return None,
        },
        Err(_) => return None,
    };
    match ex.eval(&[xf]) {
        Ok(v) => Some(v.to_string()),
        Err(_) => None,
    }
}

/// Whether a result text reads as a non-finite number: positive or
/// negative infinity, or not-a-number, as the evaluator writes them.
pub open spec fn spec_is_nonfinite_text(s: Seq<char>) -> bool {
    s == seq!['i', 'n', 'f'] || s == seq!['-', 'i', 'n', 'f'] || s == seq!['N', 'a', 'N']
}

/// Decides whether a result text reads as a non-finite number.
fn is_nonfinite_text(v: &Vec<char>) -> (r: bool)
    ensures
        r == spec_is_nonfinite_text(v@),
{
    if v.len() == 3 {
        let inf = v[0] == 'i' && v[1] == 'n' && v[2] == 'f';
        let nan = v[0] == 'N' && v[1] == 'a' && v[2] == 'N';
        proof {
            if inf {
                assert(v@ =~= seq!['i', 'n', 'f']);
            }
            if nan {
                assert(v@ =~= seq!['N', 'a', 'N']);
            }
        }
        inf || nan
    } else if v.len() == 4 {
        let ninf = v[0] == '-' && v[1] == 'i' && v[2] == 'n' && v[3] == 'f';
        proof {
            if ninf {
                assert(v@ =~= seq!['-', 'i', 'n', 'f']);
            }
        }
        ninf
    } else {
        false
    }
}

/// Whether an optional result string carries exactly an optional
/// specification-level text: both absent, or both present and equal.
pub open spec fn opt_text_is(r: Option<String>, s: Option<Seq<char>>) -> bool {
    match r {
        Some(t) => s == Some(t@),
        None => s is None,
    }
}

/// The value the evaluator hands back for an expression and an input:
/// the named outcome, with non-finite results treated as no value.
pub open spec fn spec_eval_result(expr: Seq<char>, x: Seq<char>) -> Option<Seq<char>> {
    match eval_of(expr, x) {
        Some(t) => if spec_is_nonfinite_text(t) {
            None
        } else {
            Some(t)
        },
        None => None,
    }
}

/// Evaluates an expression text at one input text. No value comes back
/// where the text does not parse, where evaluation fails, or where the
/// result is not a finite number; no input ever raises an error.
pub fn evaluate(body: &str, x: &str) -> (r: Option<String>)
    ensures
        (match r {
            Some(t) => spec_eval_result(body@, x@) == Some(t@),
            None => spec_eval_result(body@, x@) is None,
        }),
{
    match eval_expr_text(body, x) {
        Some(t) => {
            let tc = chars_of(t.as_str());
            if is_nonfinite_text(&tc) {
                None
            } else {
                Some(t)
            }
        },
        None => None,
    }
}

/// Substitutes every binding of the collection into the expression body,
/// then evaluates the substituted text at the input.
pub fn evaluate_expression(body: &str, context: &Vec<String>, x: &str) -> (r: Option<String>)
    ensures
        (match r {
            Some(t) => spec_eval_result(
                spec_substitute(body@, lines_view(context@)),
                x@,
            ) == Some(t@),
            None => spec_eval_result(spec_substitute(body@, lines_view(context@)), x@) is None,
        }),
{
    let sub = substitute(body, context);
    evaluate(sub.as_str(), x)
}

/// Evaluates a parametric pair at one parameter text. The first body is
/// evaluated at the parameter; the second body is then evaluated at the
/// first result, not at the parameter: the two components compose, as
/// the plotter behaves.
pub fn evaluate_parametric(x_body: &str, y_body: &str, context: &Vec<String>, t: &str) -> (r:
    Option<(String, String)>)
    ensures
        (match r {
            Some(p) => spec_eval_result(spec_substitute(x_body@, lines_view(context@)), t@)
                == Some(p.0@) && spec_eval_result(
                spec_substitute(y_body@, lines_view(context@)),
                p.0@,
            ) == Some(p.1@),
            None => spec_eval_result(spec_substitute(x_body@, lines_view(context@)), t@) is None
                || spec_eval_result(
                spec_substitute(y_body@, lines_view(context@)),
                spec_eval_result(spec_substitute(x_body@, lines_view(context@)), t@)->0,
            ) is None,
        }),
{
    match evaluate_expression(x_body, context, t) {
        Some(xv) => {
            match evaluate_expression(y_body, context, xv.as_str()) {
                Some(yv) => Some((xv, yv)),
                None => None,
            }
        },
        None => None,
    }
}

} // verus!
