use jlox_in_rust::ast_printer::render;
use jlox_in_rust::error::{Diagnostic, Diagnostics, Locus};
use jlox_in_rust::parser::Parser;
use jlox_in_rust::run;
use jlox_in_rust::scanner::Scanner;
use jlox_in_rust::token::Token;

fn scan(source: &str) -> (Vec<Token>, Diagnostics) {
    let mut diags = Diagnostics::new();
    let mut scanner = Scanner::new(source);
    let tokens = scanner.scan_tokens(&mut diags);
    (tokens, diags)
}

fn printed_form(source: &str) -> String {
    let (tokens, diags) = scan(source);
    assert!(!diags.had_error, "unexpected syntax error for {source:?}");
    let mut diags = Diagnostics::new();
    let mut parser = Parser::new(&tokens);
    let expr = parser.parse(&mut diags).expect("expected a parse for the source");
    String::from_utf8(render(&expr)).expect("printer output is UTF-8")
}

#[test]
fn printing_shows_precedence() {
    assert_eq!(printed_form("1 + 2 * 3"), "(+ 1 (* 2 3))");
}

#[test]
fn printing_shows_associativity_and_grouping() {
    assert_eq!(printed_form("1 - 2 - 3"), "(- (- 1 2) 3)");
    assert_eq!(printed_form("(1 + 2) * 3"), "(* (group (+ 1 2)) 3)");
    assert_eq!(printed_form("-123 * 45.5"), "(* (- 123) 45.5)");
    assert_eq!(printed_form("!true == false"), "(== (! true) false)");
    assert_eq!(printed_form("nil"), "nil");
    assert_eq!(printed_form("\"abc\""), "abc");
    assert_eq!(printed_form("1 <= 2"), "(<= 1 2)");
}

#[test]
fn unbalanced_grouping_reports_and_stops() {
    let mut diags = Diagnostics::new();
    let result = run("(1 + 2", &mut diags);
    assert!(result.is_none());
    assert!(diags.had_error);
    assert!(!diags.had_runtime_error);
    match diags.entries.last() {
        Some(Diagnostic::Syntax { locus, message, .. }) => {
            assert_eq!(*message, "Expect ')' after expression.");
            assert_eq!(*locus, Locus::AtEnd);
        }
        other => panic!("expected a syntax diagnostic, got {other:?}"),
    }
}

#[test]
fn missing_expression_is_reported_at_token() {
    let mut diags = Diagnostics::new();
    let result = run("1 + *", &mut diags);
    assert!(result.is_none());
    assert!(diags.had_error);
    match diags.entries.last() {
        Some(Diagnostic::Syntax { locus, message, line }) => {
            assert_eq!(*message, "Expect expression.");
            assert_eq!(*locus, Locus::At(b"*".to_vec()));
            assert_eq!(*line, 0);
        }
        other => panic!("expected a syntax diagnostic, got {other:?}"),
    }
}

#[test]
fn empty_input_expects_expression() {
    let mut diags = Diagnostics::new();
    let result = run("", &mut diags);
    assert!(result.is_none());
    assert!(diags.had_error);
    match diags.entries.last() {
        Some(Diagnostic::Syntax { locus, message, .. }) => {
            assert_eq!(*message, "Expect expression.");
            assert_eq!(*locus, Locus::AtEnd);
        }
        other => panic!("expected a syntax diagnostic, got {other:?}"),
    }
}

#[test]
fn synchronize_skips_to_statement_boundary() {
    let (tokens, _) = scan("1 2 ; 3");
    let mut parser = Parser::new(&tokens);
    parser.synchronize();
    // Tokens: 1 2 ; 3 eof -- recovery consumes up to and past the semicolon.
    assert_eq!(parser.current, 3);

    let (tokens, _) = scan("1 2 var x");
    let mut parser = Parser::new(&tokens);
    parser.synchronize();
    // Recovery stops just before the statement keyword.
    assert_eq!(parser.current, 2);

    let (tokens, _) = scan("1 2 3");
    let mut parser = Parser::new(&tokens);
    parser.synchronize();
    // No boundary: recovery stops at the end-of-input sentinel.
    assert_eq!(parser.current, 3);
}
