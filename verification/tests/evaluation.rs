use jlox_in_rust::error::{Diagnostic, Diagnostics};
use jlox_in_rust::run;
use jlox_in_rust::value::Value;

fn run_source(source: &str) -> (Option<Value<Vec<u8>>>, Diagnostics) {
    let mut diags = Diagnostics::new();
    let result = run(source, &mut diags);
    (result, diags)
}

fn eval_number(source: &str) -> f64 {
    let (result, diags) = run_source(source);
    assert!(!diags.had_error, "unexpected syntax error for {source:?}");
    assert!(!diags.had_runtime_error, "unexpected runtime error for {source:?}");
    match result {
        Some(Value::Number(bits)) => f64::from_bits(bits),
        other => panic!("expected a number for {source:?}, got {other:?}"),
    }
}

fn runtime_message(source: &str) -> (&'static str, u32) {
    let (result, diags) = run_source(source);
    assert!(result.is_none(), "expected a runtime error for {source:?}");
    assert!(diags.had_runtime_error);
    assert!(!diags.had_error);
    match diags.entries.last() {
        Some(Diagnostic::Runtime { line, message }) => (message, *line),
        other => panic!("expected a runtime diagnostic, got {other:?}"),
    }
}

#[test]
fn evaluates_division_and_grouping() {
    assert_eq!(eval_number("6 / (2 - 1)"), 6.0);
}

#[test]
fn evaluates_precedence_arithmetic() {
    assert_eq!(eval_number("1 + 2 * 3"), 7.0);
    assert_eq!(eval_number("6 / 2"), 3.0);
    assert_eq!(eval_number("2 - 1"), 1.0);
    assert_eq!(eval_number("123.45 + 0"), 123.45);
}

#[test]
fn evaluates_equality_of_sums() {
    let (result, _) = run_source("2 + 2 == 4");
    assert_eq!(result, Some(Value::Boolean(true)));
}

#[test]
fn concatenates_strings() {
    let (result, _) = run_source("\"foo\" + \"bar\"");
    assert_eq!(result, Some(Value::String(b"foobar".to_vec())));
}

#[test]
fn rejects_mixed_addition() {
    let (message, _) = runtime_message("\"foo\" + 1");
    assert_eq!(message, "Operands must be two numbers or two strings.");
}

#[test]
fn not_nil_is_true() {
    let (result, _) = run_source("!nil");
    assert_eq!(result, Some(Value::Boolean(true)));
}

#[test]
fn zero_is_truthy() {
    let (result, _) = run_source("!0");
    assert_eq!(result, Some(Value::Boolean(false)));
}

#[test]
fn empty_string_is_truthy() {
    let (result, _) = run_source("!\"\"");
    assert_eq!(result, Some(Value::Boolean(false)));
}

#[test]
fn division_by_zero_gives_infinity() {
    let (result, diags) = run_source("1 / 0");
    assert!(!diags.had_runtime_error);
    assert_eq!(result, Some(Value::Number(f64::INFINITY.to_bits())));
}

#[test]
fn zero_over_zero_is_nan() {
    let (result, _) = run_source("0 / 0");
    match result {
        Some(Value::Number(bits)) => assert!(f64::from_bits(bits).is_nan()),
        other => panic!("expected a number, got {other:?}"),
    }
}

#[test]
fn no_cross_variant_coercion() {
    let (result, _) = run_source("1 == \"1\"");
    assert_eq!(result, Some(Value::Boolean(false)));
    let (result, _) = run_source("nil == false");
    assert_eq!(result, Some(Value::Boolean(false)));
}

#[test]
fn nan_is_not_equal_to_itself() {
    let (result, _) = run_source("0 / 0 == 0 / 0");
    assert_eq!(result, Some(Value::Boolean(false)));
}

#[test]
fn values_equal_themselves() {
    for source in ["1 == 1", "nil == nil", "true == true", "\"a b\" == \"a b\"", "0 == -0"] {
        let (result, _) = run_source(source);
        assert_eq!(result, Some(Value::Boolean(true)), "for {source:?}");
    }
}

#[test]
fn comparisons_follow_numeric_order() {
    let cases = [
        ("1 < 2", true),
        ("2 < 1", false),
        ("1 <= 1", true),
        ("2 > 1", true),
        ("1 > 1", false),
        ("1 >= 2", false),
        ("-1 < 0", true),
        ("1 != 2", true),
    ];
    for (source, expected) in cases {
        let (result, _) = run_source(source);
        assert_eq!(result, Some(Value::Boolean(expected)), "for {source:?}");
    }
}

#[test]
fn comparing_non_numbers_fails() {
    let (message, _) = runtime_message("\"a\" < \"b\"");
    assert_eq!(message, "Operands must be numbers.");
    let (message, _) = runtime_message("nil * 2");
    assert_eq!(message, "Operands must be numbers.");
}

#[test]
fn negating_a_non_number_fails() {
    let (message, _) = runtime_message("-\"s\"");
    assert_eq!(message, "Operand must be a number.");
}

#[test]
fn runtime_error_carries_operator_line() {
    let (message, line) = runtime_message("1 +\n\nnil");
    assert_eq!(message, "Operands must be two numbers or two strings.");
    assert_eq!(line, 0);
}

#[test]
fn chained_unary_operators_nest() {
    let (result, _) = run_source("!!true");
    assert_eq!(result, Some(Value::Boolean(true)));
    assert_eq!(eval_number("--3"), 3.0);
}

#[test]
fn negation_of_zero_keeps_sign() {
    let (result, _) = run_source("-0");
    assert_eq!(result, Some(Value::Number((-0.0f64).to_bits())));
}

#[test]
fn left_associative_subtraction() {
    assert_eq!(eval_number("10 - 4 - 3"), 3.0);
}
