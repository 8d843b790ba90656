use vstd::prelude::*;

pub mod ast_printer;
pub mod error;
pub mod expr;
pub mod interpreter;
pub mod number;
pub mod parser;
pub mod scanner;
pub mod token;
pub mod value;

use crate::error::{entries_model, had_error, DiagnosticModel, Diagnostics};
use crate::interpreter::{spec_eval, Interpreter};
use crate::parser::{spec_expression, Parser};
use crate::scanner::{spec_scan, Scanner};
use crate::value::Value;
use vstd::string::StringSliceAdditionalSpecFns;

verus! {

/// What one run leaves behind, given the session it started from: the
/// scanned and parsed source either evaluates to a value, or stops at the
/// first syntax stage that failed, every failure recorded in order.
pub open spec fn spec_run_outcome(
    src: Seq<u8>,
    r: Option<Value<Vec<u8>>>,
    d0: Diagnostics,
    d1: Diagnostics,
) -> bool {
    let (toks, scan_diags) = spec_scan(src, 0, 0);
    match spec_expression(toks, 0) {
        Ok((e, _)) => {
            if scan_diags.len() > 0 || d0.had_error {
                // A lexical error was reported: parsing finished but
                // nothing is evaluated.
                &&& r is None
                &&& entries_model(&d1) == entries_model(&d0) + scan_diags
                &&& d1.had_error
                &&& d1.had_runtime_error == d0.had_runtime_error
            } else {
                match spec_eval(e) {
                    Ok(v) => {
                        &&& r matches Some(rv) && rv@ == v
                        &&& entries_model(&d1) == entries_model(&d0)
                        &&& d1.had_error == d0.had_error
                        &&& d1.had_runtime_error == d0.had_runtime_error
                    },
                    Err(err) => {
                        &&& r is None
                        &&& entries_model(&d1) == entries_model(&d0).push(
                            DiagnosticModel::Runtime { line: err.line, message: err.message },
                        )
                        &&& d1.had_error == d0.had_error
                        &&& d1.had_runtime_error
                    },
                }
            }
        },
        Err(d) => {
            // The expression under construction was aborted; its error and
            // every lexical one stand recorded, and nothing is evaluated.
            &&& r is None
            &&& entries_model(&d1) == entries_model(&d0) + scan_diags.push(d)
            &&& d1.had_error
            &&& d1.had_runtime_error == d0.had_runtime_error
        },
    }
}

/// One whole run: scan the source, parse one expression, and evaluate it,
/// stopping after the first stage that reported a syntax error. The value
/// comes back for the driver to print; every failure is in the session.
pub fn run(source: &str, diags: &mut Diagnostics) -> (r: Option<Value<Vec<u8>>>)
    requires
        source.spec_bytes().len() <= 0xffff_ffff,
    ensures
        spec_run_outcome(source.spec_bytes(), r, *old(diags), *final(diags)),
{
    let mut scanner = Scanner::new(source);
    let tokens = scanner.scan_tokens(diags);
    let mut parser = Parser::new(tokens.as_slice());
    let expr = parser.parse(diags);

    // Stop if there was a syntax error.
    if had_error(diags) {
        return None;
    }

    let interpreter = Interpreter::new();
    match expr {
        Some(expr) => interpreter.interpret(&expr, diags),
        None => None,
    }
}

} // verus!
