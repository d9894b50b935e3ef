use grapher::cartesian::Cartesian;
use grapher::eval::{evaluate, evaluate_expression};
use grapher::replace::replace_all;
use grapher::subst::substitute;

fn ctx(lines: &[&str]) -> Vec<String> {
    lines.iter().map(|s| s.to_string()).collect()
}

fn chars(s: &str) -> Vec<char> {
    s.chars().collect()
}

fn num(r: Option<String>) -> f64 {
    r.expect("expected a value").parse().expect("expected a number")
}

#[test]
fn substitution_leaves_unrelated_text_alone() {
    let c = ctx(&["a = 5"]);
    assert_eq!(substitute("z + 1", &c), "z + 1".to_string());
}

#[test]
fn substitution_replaces_simple_variable() {
    let c = ctx(&["a = 5"]);
    assert_eq!(substitute("a + 2", &c), "5 + 2".to_string());
}

#[test]
fn substitution_replaces_inside_longer_identifiers() {
    // Replacement is textual: the `a` inside `cat` is replaced too.
    let c = ctx(&["a = 5"]);
    assert_eq!(substitute("cat + 2", &c), "c5t + 2".to_string());
}

#[test]
fn substitution_replaces_point_accessors() {
    let c = ctx(&["P = (1, 2)"]);
    assert_eq!(substitute("P.x + P.y", &c), "1 + 2".to_string());
}

#[test]
fn substitution_applies_lines_in_order() {
    let c = ctx(&["a = 1", "b = 2"]);
    assert_eq!(substitute("a + b", &c), "1 + 2".to_string());
}

#[test]
fn replace_all_is_leftmost_without_overlap() {
    let out = replace_all(&chars("aaa"), &chars("aa"), &chars("b"));
    assert_eq!(out, chars("ba"));
    let out = replace_all(&chars("cat"), &chars("a"), &chars("5"));
    assert_eq!(out, chars("c5t"));
    let out = replace_all(&chars("abc"), &chars(""), &chars("x"));
    assert_eq!(out, chars("abc"));
}

#[test]
fn evaluation_of_plain_expression() {
    assert_eq!(num(evaluate("x^2", "3")), 9.0);
    assert_eq!(num(evaluate("x*2 + 1", "0.5")), 2.0);
}

#[test]
fn evaluation_of_unparsable_text_yields_nothing() {
    assert_eq!(evaluate("((", "1"), None);
    assert_eq!(evaluate("x +", "1"), None);
    assert_eq!(evaluate("", "1"), None);
}

#[test]
fn evaluation_out_of_domain_yields_nothing() {
    // Division by zero gives an infinite value and the square root of a
    // negative number gives a not-a-number value: both read as "no
    // sample", never as an error.
    assert_eq!(evaluate("1/x", "0"), None);
    assert_eq!(evaluate("x/0", "1"), None);
    assert_eq!(evaluate("sqrt(x)", "-1"), None);
}

#[test]
fn end_to_end_point_and_square() {
    // Lines `P = (1, 2)` and `y = x^2`: the point resolves at (1, 2) and
    // the function samples to 1 at x = 1.
    let cart = Cartesian { inputs: ctx(&["P = (1, 2)", "y = x^2"]), switch: 0 };
    let p = cart.parse_point("P = (1, 2)").expect("point expected");
    assert_eq!(p, ('P', "1".to_string(), "2".to_string()));
    assert_eq!(num(cart.evaluate_expression(1, "1")), 1.0);
}

#[test]
fn end_to_end_variable_in_function() {
    // Lines `a = 3` and `y = a*x`: at x = 2 the function samples to 6
    // after substitution.
    let cart = Cartesian { inputs: ctx(&["a = 3", "y = a*x"]), switch: 0 };
    assert_eq!(num(cart.evaluate_expression(1, "2")), 6.0);
}

#[test]
fn evaluate_expression_substitutes_before_evaluating() {
    let c = ctx(&["a = 3"]);
    assert_eq!(num(evaluate_expression("a*x", &c, "2")), 6.0);
}

#[test]
fn implicit_line_samples_its_body() {
    let cart = Cartesian { inputs: ctx(&["x^2 - 4 = 0"]), switch: 0 };
    assert_eq!(num(cart.evaluate_expression(0, "3")), 5.0);
}

#[test]
fn point_and_variable_lines_yield_no_sample() {
    let cart = Cartesian { inputs: ctx(&["a = 3", "P = (1, 2)"]), switch: 0 };
    assert_eq!(cart.evaluate_expression(0, "1"), None);
    assert_eq!(cart.evaluate_expression(1, "1"), None);
}

#[test]
fn parametric_components_compose() {
    // The second body is evaluated at the first body's result, not at
    // the parameter: at t = 3 the first gives 4 and the second 8.
    let cart = Cartesian { inputs: ctx(&["x(t) = t+1, y(t) = t*2"]), switch: 0 };
    let (xv, yv) = cart.evaluate_parametric(0, "3").expect("samples expected");
    let xv: f64 = xv.parse().unwrap();
    let yv: f64 = yv.parse().unwrap();
    assert_eq!(xv, 4.0);
    assert_eq!(yv, 8.0);
}

#[test]
fn non_parametric_line_yields_no_parametric_sample() {
    let cart = Cartesian { inputs: ctx(&["y = x"]), switch: 0 };
    assert_eq!(cart.evaluate_parametric(0, "1"), None);
}

#[test]
fn parse_variable_trims_both_sides() {
    let cart = Cartesian { inputs: Vec::new(), switch: 0 };
    assert_eq!(
        cart.parse_variable("  a  =  3.5  "),
        Some(("a".to_string(), "3.5".to_string()))
    );
    assert_eq!(cart.parse_variable("no equals sign"), None);
    assert_eq!(cart.parse_variable("a = nope"), None);
}

#[test]
fn input_lines_can_be_added_and_removed() {
    let mut cart = Cartesian { inputs: ctx(&["a = 1"]), switch: 0 };
    cart.add_input();
    assert_eq!(cart.inputs.len(), 2);
    assert_eq!(cart.inputs[1], "".to_string());
    cart.remove_input(0);
    assert_eq!(cart.inputs, vec!["".to_string()]);
}
