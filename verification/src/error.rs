use vstd::prelude::*;

use crate::token::{Token, TokenType};

verus! {

/// Where a syntax diagnostic points: nowhere in particular, at the end of
/// the input, or at an offending lexeme.
#[derive(Debug, PartialEq)]
pub enum Locus {
    Plain,
    AtEnd,
    At(Vec<u8>),
}

/// The specification-level form of a locus.
pub enum LocusModel {
    Plain,
    AtEnd,
    At(Seq<u8>),
}

impl Locus {
    pub open spec fn model(&self) -> LocusModel {
        match self {
            Locus::Plain => LocusModel::Plain,
            Locus::AtEnd => LocusModel::AtEnd,
            Locus::At(lexeme) => LocusModel::At(lexeme@),
        }
    }
}

/// One recorded failure: a syntax error with its line, locus and verbatim
/// message, or a runtime error with its line and verbatim message.
#[derive(Debug, PartialEq)]
pub enum Diagnostic {
    Syntax { line: u32, locus: Locus, message: &'static str },
    Runtime { line: u32, message: &'static str },
}

/// The specification-level form of a diagnostic.
pub enum DiagnosticModel {
    Syntax { line: u32, locus: LocusModel, message: Seq<char> },
    Runtime { line: u32, message: Seq<char> },
}

impl Diagnostic {
    pub open spec fn model(&self) -> DiagnosticModel {
        match self {
            Diagnostic::Syntax { line, locus, message } => DiagnosticModel::Syntax {
                line: *line,
                locus: locus.model(),
                message: message@,
            },
            Diagnostic::Runtime { line, message } => DiagnosticModel::Runtime {
                line: *line,
                message: message@,
            },
        }
    }
}

/// The diagnostics of one session: every failure recorded in order, and
/// two independent sticky flags. The driver clears the session before each
/// interactive line and reads the flags after a run to pick an exit status.
#[derive(Debug, PartialEq)]
pub struct Diagnostics {
    pub entries: Vec<Diagnostic>,
    pub had_error: bool,
    pub had_runtime_error: bool,
}

/// The entries of a session, in specification form.
pub open spec fn entries_model(d: &Diagnostics) -> Seq<DiagnosticModel> {
    d.entries@.map_values(|e: Diagnostic| e.model())
}

impl Diagnostics {
    /// A fresh session: no entries, both flags clear.
    pub fn new() -> (d: Diagnostics)
        ensures
            d.entries@.len() == 0,
            !d.had_error,
            !d.had_runtime_error,
    {
        Diagnostics { entries: Vec::new(), had_error: false, had_runtime_error: false }
    }
}

/// Records one syntax error and sets the sticky syntax flag; nothing else
/// changes.
fn report(diags: &mut Diagnostics, line: u32, locus: Locus, message: &'static str)
    ensures
        final(diags).entries@ == old(diags).entries@.push(
            Diagnostic::Syntax { line, locus, message },
        ),
        final(diags).had_error,
        final(diags).had_runtime_error == old(diags).had_runtime_error,
{
    diags.entries.push(Diagnostic::Syntax { line, locus, message });
    diags.had_error = true;
}

/// Reports a syntax error with no locus, as the lexer does.
pub fn error(diags: &mut Diagnostics, line: u32, message: &'static str)
    ensures
        entries_model(final(diags)) == entries_model(old(diags)).push(
            DiagnosticModel::Syntax { line, locus: LocusModel::Plain, message: message@ },
        ),
        final(diags).had_error,
        final(diags).had_runtime_error == old(diags).had_runtime_error,
{
    report(diags, line, Locus::Plain, message);
}

/// Reports a syntax error located at a token: `at end` for the
/// end-of-input sentinel, at the token's lexeme otherwise.
pub fn error_at_token(diags: &mut Diagnostics, token: &Token, message: &'static str)
    ensures
        entries_model(final(diags)) == entries_model(old(diags)).push(
            DiagnosticModel::Syntax {
                line: token.line,
                locus: if token.kind.model() is Eof {
                    LocusModel::AtEnd
                } else {
                    LocusModel::At(token.lexeme@)
                },
                message: message@,
            },
        ),
        final(diags).had_error,
        final(diags).had_runtime_error == old(diags).had_runtime_error,
{
    if matches!(token.kind, TokenType::Eof) {
        report(diags, token.line, Locus::AtEnd, message);
    } else {
        let lexeme = vstd::slice::slice_to_vec(token.lexeme.as_slice());
        report(diags, token.line, Locus::At(lexeme), message);
    }
}

/// Records one runtime error and sets the sticky runtime flag; nothing
/// else changes.
pub fn runtime_error(diags: &mut Diagnostics, message: &'static str, line: u32)
    ensures
        entries_model(final(diags)) == entries_model(old(diags)).push(
            DiagnosticModel::Runtime { line, message: message@ },
        ),
        final(diags).had_runtime_error,
        final(diags).had_error == old(diags).had_error,
{
    diags.entries.push(Diagnostic::Runtime { line, message });
    diags.had_runtime_error = true;
}

/// Whether any syntax error has been recorded since the last clear.
pub fn had_error(diags: &Diagnostics) -> (r: bool)
    ensures
        r == diags.had_error,
{
    diags.had_error
}

/// Whether any runtime error has been recorded since the last clear.
pub fn had_runtime_error(diags: &Diagnostics) -> (r: bool)
    ensures
        r == diags.had_runtime_error,
{
    diags.had_runtime_error
}

/// Resets the session for the next input line: both flags cleared and the
/// recorded entries dropped.
pub fn clear_error(diags: &mut Diagnostics)
    ensures
        final(diags).entries@.len() == 0,
        !final(diags).had_error,
        !final(diags).had_runtime_error,
{
    diags.entries.clear();
    diags.had_error = false;
    diags.had_runtime_error = false;
}

} // verus!
