//! The state of the plane-plotter scene: the user's input lines, edited
//! as a collection, and the pending scene switch. The methods wire the
//! lines to the classifier, the substitution engine and the evaluator.

use vstd::prelude::*;
use crate::text::chars_of;
use crate::text::string_from_chars;
use crate::classify::spec_is_variable;
use crate::classify::spec_variable_name;
use crate::classify::spec_variable_value;
use crate::classify::variable_of;
use crate::classify::spec_classify;
use crate::classify::SpecClassification;
use crate::classify::Classification;
use crate::classify::classify;
use crate::subst::lines_view;
use crate::subst::spec_point_of;
use crate::subst::point_of;
use crate::subst::spec_substitute;
use crate::eval::spec_eval_result;
use crate::eval::opt_text_is;
use crate::eval::evaluate_expression;
use crate::eval::evaluate_parametric;

verus! {

/// What one input line contributes to a frame at one sampled input:
/// the lines classified as explicit or implicit functions evaluate
/// their substituted body; every other line contributes no sample.
pub open spec fn spec_line_sample(line: Seq<char>, ctx: Seq<Seq<char>>, x: Seq<char>) -> Option<
    Seq<char>,
> {
    match spec_classify(line, ctx) {
        SpecClassification::Explicit { body } => spec_eval_result(spec_substitute(body, ctx), x),
        SpecClassification::Implicit { body } => spec_eval_result(spec_substitute(body, ctx), x),
        _ => None,
    }
}

/// The plane plotter's state. `switch` carries a pending scene-switch
/// request code; zero asks for nothing.
pub struct Cartesian {
    pub inputs: Vec<String>,
    pub switch: u8,
}

impl Cartesian {
    /// Appends an empty input line, as the editor's add button does.
    pub fn add_input(&mut self)
        ensures
            final(self).inputs@.len() == old(self).inputs@.len() + 1,
            final(self).inputs@[old(self).inputs@.len() as int]@ == Seq::<char>::empty(),
            final(self).inputs@.subrange(0, old(self).inputs@.len() as int) == old(self).inputs@,
            final(self).switch == old(self).switch,
    {
        self.inputs.push(String::new());
        assert(final(self).inputs@.subrange(0, old(self).inputs@.len() as int) =~= old(
            self,
        ).inputs@);
    }

    /// Removes the input line at `i`.
    pub fn remove_input(&mut self, i: usize)
        requires
            i < old(self).inputs@.len(),
        ensures
            final(self).inputs@ == old(self).inputs@.remove(i as int),
            final(self).switch == old(self).switch,
    {
        self.inputs.remove(i);
    }

    /// Classifies one line under this scene's input collection.
    pub fn classify_line(&self, line: &str) -> (c: Classification)
        ensures
            c@ == spec_classify(line@, lines_view(self.inputs@)),
    {
        classify(line, &self.inputs)
    }

    /// Splits a line into a variable's name and value text, or decides
    /// it binds no variable. The collection plays no part here.
    pub fn parse_variable(&self, input: &str) -> (r: Option<(String, String)>)
        ensures
            (match r {
                Some(p) => spec_is_variable(input@) && p.0@ == spec_variable_name(input@) && p.1@
                    == spec_variable_value(input@),
                None => !spec_is_variable(input@),
            }),
    {
        let lc = chars_of(input);
        match variable_of(&lc) {
            Some((n, v)) => Some((string_from_chars(&n), string_from_chars(&v))),
            None => None,
        }
    }

    /// Resolves a line as a point under this scene's input collection:
    /// its single-character name and its two coordinate value texts.
    pub fn parse_point(&self, input: &str) -> (r: Option<(char, String, String)>)
        ensures
            (match r {
                Some(p) => spec_point_of(input@, lines_view(self.inputs@)) == Some(
                    (p.0, p.1@, p.2@),
                ),
                None => spec_point_of(input@, lines_view(self.inputs@)) is None,
            }),
    {
        let lc = chars_of(input);
        match point_of(&lc, &self.inputs) {
            Some((nm, xt, yt)) => Some((nm, string_from_chars(&xt), string_from_chars(&yt))),
            None => None,
        }
    }

    /// Samples the input line at `i` at one input text: an explicit or
    /// implicit function line evaluates its substituted body there; any
    /// other line yields no sample.
    pub fn evaluate_expression(&self, i: usize, x: &str) -> (r: Option<String>)
        requires
            i < self.inputs@.len(),
        ensures
            opt_text_is(r, spec_line_sample(self.inputs@[i as int]@, lines_view(self.inputs@), x@)),
    {
        assert(lines_view(self.inputs@)[i as int] == self.inputs@[i as int]@);
        let c = classify(self.inputs[i].as_str(), &self.inputs);
        match c {
            Classification::Explicit { body } => evaluate_expression(
                body.as_str(),
                &self.inputs,
                x,
            ),
            Classification::Implicit { body } => evaluate_expression(
                body.as_str(),
                &self.inputs,
                x,
            ),
            _ => None,
        }
    }

    /// Samples a parametric input line at one parameter text. The first
    /// body is evaluated at the parameter and the second at the first's
    /// result — the components compose, as the plotter behaves. A line
    /// that is not parametric yields no sample.
    pub fn evaluate_parametric(&self, i: usize, t: &str) -> (r: Option<(String, String)>)
        requires
            i < self.inputs@.len(),
        ensures
            ({
                let ctx = lines_view(self.inputs@);
                match spec_classify(self.inputs@[i as int]@, ctx) {
                    SpecClassification::Parametric { x_body, y_body } => (match r {
                        Some(p) => spec_eval_result(spec_substitute(x_body, ctx), t@) == Some(
                            p.0@,
                        ) && spec_eval_result(spec_substitute(y_body, ctx), p.0@) == Some(p.1@),
                        None => spec_eval_result(spec_substitute(x_body, ctx), t@) is None
                            || spec_eval_result(
                            spec_substitute(y_body, ctx),
                            spec_eval_result(spec_substitute(x_body, ctx), t@)->0,
                        ) is None,
                    }),
                    _ => r is None,
                }
            }),
    {
        assert(lines_view(self.inputs@)[i as int] == self.inputs@[i as int]@);
        let c = classify(self.inputs[i].as_str(), &self.inputs);
        match c {
            Classification::Parametric { x_body, y_body } => evaluate_parametric(
                x_body.as_str(),
                y_body.as_str(),
                &self.inputs,
                t,
            ),
            _ => None,
        }
    }
}

impl Default for Cartesian {
    /// The plotter starts with no input lines and no pending switch.
    fn default() -> (r: Cartesian)
        ensures
            r.inputs@.len() == 0,
            r.switch == 0,
    {
        Cartesian { inputs: Vec::new(), switch: 0 }
    }
}

} // verus!
