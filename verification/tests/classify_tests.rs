use grapher::classify::{classify, Classification};
use grapher::numlit::is_float_literal;
use grapher::text::{chars_of, str_eq, string_from_chars, trim};

fn ctx(lines: &[&str]) -> Vec<String> {
    lines.iter().map(|s| s.to_string()).collect()
}

#[test]
fn point_line_integer_coordinates() {
    let c = ctx(&["P = (1, 2)"]);
    let r = classify("P = (1, 2)", &c);
    assert_eq!(
        r,
        Classification::Point { name: 'P', x: "1".to_string(), y: "2".to_string() }
    );
}

#[test]
fn point_line_negative_and_decimal_coordinates() {
    let c = ctx(&[]);
    let r = classify("Q = (-1.5, 2.25)", &c);
    assert_eq!(
        r,
        Classification::Point { name: 'Q', x: "-1.5".to_string(), y: "2.25".to_string() }
    );
}

#[test]
fn point_line_exponent_coordinates() {
    let c = ctx(&[]);
    let r = classify("R = (1e2, -3E-1)", &c);
    assert_eq!(
        r,
        Classification::Point { name: 'R', x: "1e2".to_string(), y: "-3E-1".to_string() }
    );
}

#[test]
fn point_coordinates_resolve_through_variables() {
    let c = ctx(&["a = 4", "P = (a, 2)"]);
    let r = classify("P = (a, 2)", &c);
    assert_eq!(
        r,
        Classification::Point { name: 'P', x: "4".to_string(), y: "2".to_string() }
    );
}

#[test]
fn point_with_non_numeric_coordinate_is_not_a_point() {
    let c = ctx(&[]);
    let r = classify("P = (foo, 2)", &c);
    assert_eq!(r, Classification::Unrecognized);
}

#[test]
fn variable_line_integer() {
    let c = ctx(&[]);
    let r = classify("a = 3", &c);
    assert_eq!(
        r,
        Classification::Variable { name: "a".to_string(), value: "3".to_string() }
    );
}

#[test]
fn variable_line_decimal_and_signed() {
    let c = ctx(&[]);
    assert_eq!(
        classify("speed = -2.5", &c),
        Classification::Variable { name: "speed".to_string(), value: "-2.5".to_string() }
    );
    assert_eq!(
        classify("k=+.5", &c),
        Classification::Variable { name: "k".to_string(), value: "+.5".to_string() }
    );
}

#[test]
fn variable_with_unparsable_literal_is_not_a_variable() {
    let c = ctx(&[]);
    let r = classify("a = hello", &c);
    assert!(!matches!(r, Classification::Variable { .. }));
}

#[test]
fn explicit_function_line() {
    let c = ctx(&[]);
    let r = classify("y = x^2", &c);
    assert_eq!(r, Classification::Explicit { body: "x^2".to_string() });
}

#[test]
fn implicit_function_line() {
    let c = ctx(&[]);
    let r = classify("x^2 - 1 = 0", &c);
    assert_eq!(r, Classification::Implicit { body: "x^2 - 1".to_string() });
}

#[test]
fn parametric_function_line() {
    let c = ctx(&[]);
    let r = classify("x(t) = t, y(t) = t^2", &c);
    assert_eq!(
        r,
        Classification::Parametric { x_body: "t".to_string(), y_body: "t^2".to_string() }
    );
}

#[test]
fn line_matching_explicit_and_implicit_reads_as_variable() {
    // `y = 0` meets the explicit and the implicit pattern at once, but the
    // variable rule precedes both: `0` is a literal and `y` a name.
    let c = ctx(&[]);
    let r = classify("y = 0", &c);
    assert_eq!(
        r,
        Classification::Variable { name: "y".to_string(), value: "0".to_string() }
    );
}

#[test]
fn explicit_wins_over_later_function_forms() {
    // The right-hand side is no literal, so the variable rule passes;
    // the explicit rule takes the line even though a parametric-looking
    // tail follows a comma.
    let c = ctx(&[]);
    let r = classify("y = x, y(t) = t", &c);
    assert_eq!(r, Classification::Explicit { body: "x, y(t) = t".to_string() });
}

#[test]
fn unrecognized_line() {
    let c = ctx(&[]);
    assert_eq!(classify("nonsense", &c), Classification::Unrecognized);
    assert_eq!(classify("", &c), Classification::Unrecognized);
}

#[test]
fn classification_ignores_collection_order_for_functions() {
    let a = ctx(&["a = 1", "y = x"]);
    let b = ctx(&["y = x", "a = 1"]);
    assert_eq!(classify("y = x", &a), classify("y = x", &b));
}

#[test]
fn float_literal_forms() {
    let yes = ["1", "-2.5", ".5", "3.", "1e5", "1.5E-3", "inf", "NaN", "-Infinity", "+0"];
    for s in yes {
        assert!(is_float_literal(&s.chars().collect()), "{s}");
    }
    let no = ["", ".", "e5", "1e", "--1", "1.2.3", "one", "1 2", "(1)"];
    for s in no {
        assert!(!is_float_literal(&s.chars().collect()), "{s}");
    }
}

#[test]
fn text_helpers_round_trip() {
    let v = chars_of("ab c");
    assert_eq!(v, vec!['a', 'b', ' ', 'c']);
    assert_eq!(string_from_chars(&v), "ab c".to_string());
    assert_eq!(string_from_chars(&trim(&chars_of("  ab c\t"))), "ab c".to_string());
    assert!(str_eq("abc", "abc"));
    assert!(!str_eq("abc", "abd"));
}
