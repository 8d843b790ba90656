use vstd::prelude::*;

use crate::error::{entries_model, error, DiagnosticModel, Diagnostics, LocusModel};
use crate::number::{f64_of_decimal, num_parse};
use crate::token::{at_least, eof_token_model, Token, TokenModel, TokenType};
use vstd::string::StringSliceAdditionalSpecFns;

verus! {

// The lexical grammar, scanned with maximal munch and one byte of
// lookahead. All the markers the scanner decides on are ASCII, so it
// iterates over bytes; multi-byte characters pass through untouched inside
// string literals and are reported byte by byte everywhere else.

/// The byte at a position, with zero past either end, as the scanner's
/// lookahead sees it.
pub open spec fn byte_at(src: Seq<u8>, pos: int) -> u8 {
    if 0 <= pos < src.len() {
        src[pos]
    } else {
        0
    }
}

pub open spec fn is_digit(c: u8) -> bool {
    ('0' as u8) <= c <= ('9' as u8)
}

/// A letter or underscore: what an identifier may start with.
pub open spec fn is_alpha(c: u8) -> bool {
    ||| ('A' as u8) <= c <= ('Z' as u8)
    ||| ('a' as u8) <= c <= ('z' as u8)
    ||| c == ('_' as u8)
}

pub open spec fn is_alnum(c: u8) -> bool {
    is_digit(c) || is_alpha(c)
}

/// How many bytes remain at a position; zero past the end. The recursion
/// measure of the scanning functions.
pub open spec fn srem(src: Seq<u8>, pos: int) -> int {
    if pos <= src.len() {
        src.len() - pos
    } else {
        0
    }
}

/// The position of the first non-digit byte at or after `pos`.
pub open spec fn digits_end(src: Seq<u8>, pos: int) -> int
    decreases srem(src, pos),
{
    if 0 <= pos < src.len() && is_digit(src[pos]) {
        digits_end(src, pos + 1)
    } else {
        pos
    }
}

/// The position of the first non-identifier byte at or after `pos`.
pub open spec fn alnum_end(src: Seq<u8>, pos: int) -> int
    decreases srem(src, pos),
{
    if 0 <= pos < src.len() && is_alnum(src[pos]) {
        alnum_end(src, pos + 1)
    } else {
        pos
    }
}

/// The position of the closing quote at or after `pos`, or the end of the
/// input if there is none.
pub open spec fn string_end(src: Seq<u8>, pos: int) -> int
    decreases srem(src, pos),
{
    if 0 <= pos < src.len() && src[pos] != ('"' as u8) {
        string_end(src, pos + 1)
    } else {
        pos
    }
}

/// The position of the newline that ends a line comment, or the end of
/// the input.
pub open spec fn comment_end(src: Seq<u8>, pos: int) -> int
    decreases srem(src, pos),
{
    if 0 <= pos < src.len() && src[pos] != 10 {
        comment_end(src, pos + 1)
    } else {
        pos
    }
}

/// How many newline bytes lie in `[from, to)`.
pub open spec fn newlines_in(src: Seq<u8>, from: int, to: int) -> int
    decreases to - from,
{
    if from < to {
        (if byte_at(src, from) == 10 {
            1int
        } else {
            0int
        }) + newlines_in(src, from + 1, to)
    } else {
        0
    }
}

/// Counting newlines one byte at a time from the back agrees with the
/// front-to-back definition.
pub proof fn lemma_newlines_snoc(src: Seq<u8>, from: int, to: int)
    requires
        from <= to,
    ensures
        newlines_in(src, from, to + 1) == newlines_in(src, from, to) + (if byte_at(src, to) == 10 {
            1int
        } else {
            0int
        }),
    decreases to - from,
{
    reveal_with_fuel(newlines_in, 2);
    if from < to {
        lemma_newlines_snoc(src, from + 1, to);
    }
}

/// The end of a number literal starting at `pos`: one or more digits,
/// then one `.` followed by at least one digit, the dot admitted only
/// under that one-byte lookahead.
pub open spec fn number_end(src: Seq<u8>, pos: int) -> int {
    let e1 = digits_end(src, pos);
    if byte_at(src, e1) == ('.' as u8) && is_digit(byte_at(src, e1 + 1)) {
        digits_end(src, e1 + 2)
    } else {
        e1
    }
}

/// The token kind of an identifier lexeme: a keyword kind if it matches
/// the fixed keyword set, the generic identifier kind otherwise.
pub open spec fn keyword_kind(lex: Seq<u8>) -> TokenType<Seq<u8>> {
    if lex == seq![('a' as u8), ('n' as u8), ('d' as u8)] {
        TokenType::And
    } else if lex == seq![('c' as u8), ('l' as u8), ('a' as u8), ('s' as u8), ('s' as u8)] {
        TokenType::Class
    } else if lex == seq![('e' as u8), ('l' as u8), ('s' as u8), ('e' as u8)] {
        TokenType::Else
    } else if lex == seq![('f' as u8), ('a' as u8), ('l' as u8), ('s' as u8), ('e' as u8)] {
        TokenType::False
    } else if lex == seq![('f' as u8), ('o' as u8), ('r' as u8)] {
        TokenType::For
    } else if lex == seq![('f' as u8), ('u' as u8), ('n' as u8)] {
        TokenType::Fun
    } else if lex == seq![('i' as u8), ('f' as u8)] {
        TokenType::If
    } else if lex == seq![('n' as u8), ('i' as u8), ('l' as u8)] {
        TokenType::Nil
    } else if lex == seq![('o' as u8), ('r' as u8)] {
        TokenType::Or
    } else if lex == seq![('p' as u8), ('r' as u8), ('i' as u8), ('n' as u8), ('t' as u8)] {
        TokenType::Print
    } else if lex == seq![('r' as u8), ('e' as u8), ('t' as u8), ('u' as u8), ('r' as u8), ('n' as u8)] {
        TokenType::Return
    } else if lex == seq![('s' as u8), ('u' as u8), ('p' as u8), ('e' as u8), ('r' as u8)] {
        TokenType::Super
    } else if lex == seq![('t' as u8), ('h' as u8), ('i' as u8), ('s' as u8)] {
        TokenType::This
    } else if lex == seq![('t' as u8), ('r' as u8), ('u' as u8), ('e' as u8)] {
        TokenType::True
    } else if lex == seq![('v' as u8), ('a' as u8), ('r' as u8)] {
        TokenType::Var
    } else if lex == seq![('w' as u8), ('h' as u8), ('i' as u8), ('l' as u8), ('e' as u8)] {
        TokenType::While
    } else {
        TokenType::Identifier
    }
}

/// One scanning step: the token it emits if any, the diagnostic it
/// reports if any, and the position and line it leaves the scanner at.
pub struct ScanStep {
    pub token: Option<TokenModel>,
    pub diag: Option<DiagnosticModel>,
    pub next_pos: int,
    pub next_line: u32,
}

/// A single-lexeme step emitting the token spanning `[pos, end)`.
pub open spec fn step_token(
    src: Seq<u8>,
    pos: int,
    end: int,
    line: u32,
    kind: TokenType<Seq<u8>>,
) -> ScanStep {
    ScanStep {
        token: Some(TokenModel { kind, lexeme: src.subrange(pos, end), line }),
        diag: None,
        next_pos: end,
        next_line: line,
    }
}

/// A one-or-two-byte operator resolved by one-byte lookahead for `=`.
pub open spec fn step_operator(
    src: Seq<u8>,
    pos: int,
    line: u32,
    if_eq: TokenType<Seq<u8>>,
    plain: TokenType<Seq<u8>>,
) -> ScanStep {
    if pos + 1 < src.len() && byte_at(src, pos + 1) == ('=' as u8) {
        step_token(src, pos, pos + 2, line, if_eq)
    } else {
        step_token(src, pos, pos + 1, line, plain)
    }
}

/// What one call of the scanner does at a position inside the input:
/// maximal-munch scanning with one byte of lookahead, `//` comments
/// consumed to end of line, whitespace skipped, newlines counted.
pub open spec fn spec_scan_token(src: Seq<u8>, pos: int, line: u32) -> ScanStep {
    let c = byte_at(src, pos);
    if c == ('(' as u8) {
        step_token(src, pos, pos + 1, line, TokenType::LeftParen)
    } else if c == (')' as u8) {
        step_token(src, pos, pos + 1, line, TokenType::RightParen)
    } else if c == ('{' as u8) {
        step_token(src, pos, pos + 1, line, TokenType::LeftBrace)
    } else if c == ('}' as u8) {
        step_token(src, pos, pos + 1, line, TokenType::RightBrace)
    } else if c == (',' as u8) {
        step_token(src, pos, pos + 1, line, TokenType::Comma)
    } else if c == ('.' as u8) {
        step_token(src, pos, pos + 1, line, TokenType::Dot)
    } else if c == ('-' as u8) {
        step_token(src, pos, pos + 1, line, TokenType::Minus)
    } else if c == ('+' as u8) {
        step_token(src, pos, pos + 1, line, TokenType::Plus)
    } else if c == (';' as u8) {
        step_token(src, pos, pos + 1, line, TokenType::Semicolon)
    } else if c == ('*' as u8) {
        step_token(src, pos, pos + 1, line, TokenType::Star)
    } else if c == ('!' as u8) {
        step_operator(src, pos, line, TokenType::BangEqual, TokenType::Bang)
    } else if c == ('=' as u8) {
        step_operator(src, pos, line, TokenType::EqualEqual, TokenType::Equal)
    } else if c == ('<' as u8) {
        step_operator(src, pos, line, TokenType::LessEqual, TokenType::Less)
    } else if c == ('>' as u8) {
        step_operator(src, pos, line, TokenType::GreaterEqual, TokenType::Greater)
    } else if c == ('/' as u8) {
        if pos + 1 < src.len() && byte_at(src, pos + 1) == ('/' as u8) {
            // A comment runs to the end of the line and emits nothing.
            ScanStep { token: None, diag: None, next_pos: comment_end(src, pos + 2), next_line: line }
        } else {
            step_token(src, pos, pos + 1, line, TokenType::Slash)
        }
    } else if c == (' ' as u8) || c == 13 || c == 9 {
        ScanStep { token: None, diag: None, next_pos: pos + 1, next_line: line }
    } else if c == 10 {
        ScanStep { token: None, diag: None, next_pos: pos + 1, next_line: (line + 1) as u32 }
    } else if c == ('"' as u8) {
        let e = string_end(src, pos + 1);
        let l2 = (line + newlines_in(src, pos + 1, e)) as u32;
        if e >= src.len() {
            ScanStep {
                token: None,
                diag: Some(
                    DiagnosticModel::Syntax {
                        line: l2,
                        locus: LocusModel::Plain,
                        message: "Unterminated string."@,
                    },
                ),
                next_pos: e,
                next_line: l2,
            }
        } else {
            ScanStep {
                token: Some(
                    TokenModel {
                        kind: TokenType::String(src.subrange(pos + 1, e)),
                        lexeme: src.subrange(pos, e + 1),
                        line: l2,
                    },
                ),
                diag: None,
                next_pos: e + 1,
                next_line: l2,
            }
        }
    } else if is_digit(c) {
        let e = number_end(src, pos);
        ScanStep {
            token: Some(
                TokenModel {
                    kind: TokenType::Number(f64_of_decimal(src.subrange(pos, e))),
                    lexeme: src.subrange(pos, e),
                    line,
                },
            ),
            diag: None,
            next_pos: e,
            next_line: line,
        }
    } else if is_alpha(c) {
        let e = alnum_end(src, pos);
        ScanStep {
            token: Some(
                TokenModel {
                    kind: keyword_kind(src.subrange(pos, e)),
                    lexeme: src.subrange(pos, e),
                    line,
                },
            ),
            diag: None,
            next_pos: e,
            next_line: line,
        }
    } else {
        ScanStep {
            token: None,
            diag: Some(
                DiagnosticModel::Syntax {
                    line,
                    locus: LocusModel::Plain,
                    message: "Unexpected character."@,
                },
            ),
            next_pos: pos + 1,
            next_line: line,
        }
    }
}

/// The whole scan from a position: every token in order, always
/// terminated by exactly one end-of-input sentinel, and every diagnostic
/// in order. Errors accumulate; scanning never aborts.
pub open spec fn spec_scan(src: Seq<u8>, pos: int, line: u32) -> (Seq<TokenModel>, Seq<
    DiagnosticModel,
>)
    decreases srem(src, pos),
{
    if !(0 <= pos < src.len()) {
        (seq![eof_token_model()], Seq::empty())
    } else {
        let step = spec_scan_token(src, pos, line);
        let next = at_least(pos + 1, step.next_pos);
        let rest = spec_scan(src, next, step.next_line);
        (
            (match step.token {
                Some(t) => seq![t],
                None => Seq::empty(),
            }) + rest.0,
            (match step.diag {
                Some(d) => seq![d],
                None => Seq::empty(),
            }) + rest.1,
        )
    }
}

fn is_kw2(lex: &[u8], b0: u8, b1: u8) -> (r: bool)
    ensures
        r == (lex@ == seq![b0, b1]),
{
    let r = lex.len() == 2 && lex[0] == b0 && lex[1] == b1;
    proof {
        if r {
            assert(lex@ =~= seq![b0, b1]);
        } else if lex@ == seq![b0, b1] {
            assert(lex@.len() == 2);
            assert(lex@[0] == b0);
            assert(lex@[1] == b1);
        }
    }
    r
}

fn is_kw3(lex: &[u8], b0: u8, b1: u8, b2: u8) -> (r: bool)
    ensures
        r == (lex@ == seq![b0, b1, b2]),
{
    let r = lex.len() == 3 && lex[0] == b0 && lex[1] == b1 && lex[2] == b2;
    proof {
        if r {
            assert(lex@ =~= seq![b0, b1, b2]);
        } else if lex@ == seq![b0, b1, b2] {
            assert(lex@.len() == 3);
            assert(lex@[0] == b0);
            assert(lex@[1] == b1);
            assert(lex@[2] == b2);
        }
    }
    r
}

fn is_kw4(lex: &[u8], b0: u8, b1: u8, b2: u8, b3: u8) -> (r: bool)
    ensures
        r == (lex@ == seq![b0, b1, b2, b3]),
{
    let r = lex.len() == 4 && lex[0] == b0 && lex[1] == b1 && lex[2] == b2 && lex[3] == b3;
    proof {
        if r {
            assert(lex@ =~= seq![b0, b1, b2, b3]);
        } else if lex@ == seq![b0, b1, b2, b3] {
            assert(lex@.len() == 4);
            assert(lex@[0] == b0);
            assert(lex@[1] == b1);
            assert(lex@[2] == b2);
            assert(lex@[3] == b3);
        }
    }
    r
}

fn is_kw5(lex: &[u8], b0: u8, b1: u8, b2: u8, b3: u8, b4: u8) -> (r: bool)
    ensures
        r == (lex@ == seq![b0, b1, b2, b3, b4]),
{
    let r = lex.len() == 5 && lex[0] == b0 && lex[1] == b1 && lex[2] == b2 && lex[3] == b3 && lex[4] == b4;
    proof {
        if r {
            assert(lex@ =~= seq![b0, b1, b2, b3, b4]);
        } else if lex@ == seq![b0, b1, b2, b3, b4] {
            assert(lex@.len() == 5);
            assert(lex@[0] == b0);
            assert(lex@[1] == b1);
            assert(lex@[2] == b2);
            assert(lex@[3] == b3);
            assert(lex@[4] == b4);
        }
    }
    r
}

fn is_kw6(lex: &[u8], b0: u8, b1: u8, b2: u8, b3: u8, b4: u8, b5: u8) -> (r: bool)
    ensures
        r == (lex@ == seq![b0, b1, b2, b3, b4, b5]),
{
    let r = lex.len() == 6 && lex[0] == b0 && lex[1] == b1 && lex[2] == b2 && lex[3] == b3 && lex[4] == b4 && lex[5] == b5;
    proof {
        if r {
            assert(lex@ =~= seq![b0, b1, b2, b3, b4, b5]);
        } else if lex@ == seq![b0, b1, b2, b3, b4, b5] {
            assert(lex@.len() == 6);
            assert(lex@[0] == b0);
            assert(lex@[1] == b1);
            assert(lex@[2] == b2);
            assert(lex@[3] == b3);
            assert(lex@[4] == b4);
            assert(lex@[5] == b5);
        }
    }
    r
}

/// Reclassifies an identifier lexeme as a keyword token if it matches the
/// fixed keyword set.
fn keyword_or_identifier(lex: &[u8]) -> (k: TokenType<Vec<u8>>)
    ensures
        k.model() == keyword_kind(lex@),
{
    if is_kw3(lex, ('a' as u8), ('n' as u8), ('d' as u8)) {
        TokenType::And
    } else if is_kw5(lex, ('c' as u8), ('l' as u8), ('a' as u8), ('s' as u8), ('s' as u8)) {
        TokenType::Class
    } else if is_kw4(lex, ('e' as u8), ('l' as u8), ('s' as u8), ('e' as u8)) {
        TokenType::Else
    } else if is_kw5(lex, ('f' as u8), ('a' as u8), ('l' as u8), ('s' as u8), ('e' as u8)) {
        TokenType::False
    } else if is_kw3(lex, ('f' as u8), ('o' as u8), ('r' as u8)) {
        TokenType::For
    } else if is_kw3(lex, ('f' as u8), ('u' as u8), ('n' as u8)) {
        TokenType::Fun
    } else if is_kw2(lex, ('i' as u8), ('f' as u8)) {
        TokenType::If
    } else if is_kw3(lex, ('n' as u8), ('i' as u8), ('l' as u8)) {
        TokenType::Nil
    } else if is_kw2(lex, ('o' as u8), ('r' as u8)) {
        TokenType::Or
    } else if is_kw5(lex, ('p' as u8), ('r' as u8), ('i' as u8), ('n' as u8), ('t' as u8)) {
        TokenType::Print
    } else if is_kw6(lex, ('r' as u8), ('e' as u8), ('t' as u8), ('u' as u8), ('r' as u8), ('n' as u8)) {
        TokenType::Return
    } else if is_kw5(lex, ('s' as u8), ('u' as u8), ('p' as u8), ('e' as u8), ('r' as u8)) {
        TokenType::Super
    } else if is_kw4(lex, ('t' as u8), ('h' as u8), ('i' as u8), ('s' as u8)) {
        TokenType::This
    } else if is_kw4(lex, ('t' as u8), ('r' as u8), ('u' as u8), ('e' as u8)) {
        TokenType::True
    } else if is_kw3(lex, ('v' as u8), ('a' as u8), ('r' as u8)) {
        TokenType::Var
    } else if is_kw5(lex, ('w' as u8), ('h' as u8), ('i' as u8), ('l' as u8), ('e' as u8)) {
        TokenType::While
    } else {
        TokenType::Identifier
    }
}

/// The lexer: a cursor over a byte copy of the source text, with the
/// start of the lexeme in progress and the current line.
pub struct Scanner {
    pub source: Vec<u8>,
    pub start: usize,
    pub current: usize,
    pub line: u32,
}

impl Scanner {
    /// The cursor stays inside the source, the lexeme start does not pass
    /// it, and the line counter, which only grows on newline bytes, never
    /// outruns the cursor. The source must fit the 32-bit line counter.
    pub open spec fn wf(&self) -> bool {
        &&& self.start <= self.current <= self.source@.len()
        &&& self.line <= self.current
        &&& self.source@.len() <= 0xffff_ffff
    }

    /// Copies the source text into owned bytes, so tokens and the syntax
    /// tree never outlive a borrowed buffer.
    pub fn new(source: &str) -> (s: Scanner)
        requires
            source.spec_bytes().len() <= 0xffff_ffff,
        ensures
            s.wf(),
            s.source@ == source.spec_bytes(),
            s.start == 0,
            s.current == 0,
            s.line == 0,
    {
        Scanner {
            source: vstd::slice::slice_to_vec(source.as_bytes()),
            start: 0,
            current: 0,
            line: 0,
        }
    }

    fn is_at_end(&self) -> (r: bool)
        ensures
            r == (self.current >= self.source@.len()),
    {
        self.current >= self.source.len()
    }

    fn peek(&self) -> (r: u8)
        ensures
            r == byte_at(self.source@, self.current as int),
    {
        if self.current < self.source.len() {
            self.source[self.current]
        } else {
            0
        }
    }

    fn peek_next(&self) -> (r: u8)
        ensures
            r == byte_at(self.source@, self.current + 1),
    {
        if self.current < self.source.len() {
            if self.current + 1 < self.source.len() {
                self.source[self.current + 1]
            } else {
                0
            }
        } else {
            0
        }
    }

    fn advance(&mut self) -> (c: u8)
        requires
            old(self).wf(),
            old(self).current < old(self).source@.len(),
        ensures
            final(self).wf(),
            final(self).source@ == old(self).source@,
            final(self).start == old(self).start,
            final(self).line == old(self).line,
            final(self).current == old(self).current + 1,
            c == old(self).source@[old(self).current as int],
    {
        let c = self.source[self.current];
        let _n: usize = self.source.len();
        self.current = self.current + 1;
        c
    }

    /// Consumes the next byte only if it is the expected one: the one-byte
    /// lookahead of the compound operators.
    fn match_byte(&mut self, expected: u8) -> (r: bool)
        requires
            old(self).wf(),
        ensures
            final(self).wf(),
            final(self).source@ == old(self).source@,
            final(self).start == old(self).start,
            final(self).line == old(self).line,
            if old(self).current < old(self).source@.len() && old(self).source@[old(
                self,
            ).current as int] == expected {
                r && final(self).current == old(self).current + 1
            } else {
                !r && final(self).current == old(self).current
            },
    {
        if self.is_at_end() {
            return false;
        }
        if self.source[self.current] != expected {
            return false;
        }
        let _n: usize = self.source.len();
        self.current = self.current + 1;
        true
    }

    /// Emits the token for the lexeme in progress, spanning
    /// `[start, current)`, on the current line.
    fn add_token(&self, kind: TokenType<Vec<u8>>) -> (t: Token)
        requires
            self.wf(),
        ensures
            t.kind == kind,
            t.lexeme@ == self.source@.subrange(self.start as int, self.current as int),
            t.line == self.line,
    {
        Token {
            kind,
            lexeme: vstd::slice::slice_to_vec(
                vstd::slice::slice_subrange(self.source.as_slice(), self.start, self.current),
            ),
            line: self.line,
        }
    }

    /// Scans the rest of an identifier after its first byte and hands
    /// back the keyword-or-identifier token.
    fn identifier(&mut self) -> (r: Option<Token>)
        requires
            old(self).wf(),
            old(self).start < old(self).current,
        ensures
            final(self).wf(),
            final(self).source@ == old(self).source@,
            final(self).start == old(self).start,
            final(self).line == old(self).line,
            old(self).current <= final(self).current,
            final(self).current == alnum_end(old(self).source@, old(self).current as int),
            r matches Some(t) && t.model() == (TokenModel {
                kind: keyword_kind(
                    old(self).source@.subrange(
                        old(self).start as int,
                        alnum_end(old(self).source@, old(self).current as int),
                    ),
                ),
                lexeme: old(self).source@.subrange(
                    old(self).start as int,
                    alnum_end(old(self).source@, old(self).current as int),
                ),
                line: old(self).line,
            }),
    {
        loop
            invariant
                self.wf(),
                self.source@ == old(self).source@,
                self.start == old(self).start,
                self.line == old(self).line,
                old(self).current <= self.current,
                alnum_end(self.source@, self.current as int) == alnum_end(
                    old(self).source@,
                    old(self).current as int,
                ),
            ensures
                self.wf(),
                self.source@ == old(self).source@,
                self.start == old(self).start,
                self.line == old(self).line,
                old(self).current <= self.current,
                self.current == alnum_end(old(self).source@, old(self).current as int),
            decreases self.source@.len() - self.current,
        {
            let c = self.peek();
            let alnum = (c >= ('0' as u8) && c <= ('9' as u8)) || (c >= ('A' as u8) && c <= ('Z'
                as u8)) || (c >= ('a' as u8) && c <= ('z' as u8)) || c == ('_' as u8);
            if !alnum {
                break;
            }
            self.advance();
        }
        let lex = vstd::slice::slice_subrange(self.source.as_slice(), self.start, self.current);
        let kind = keyword_or_identifier(lex);
        Some(self.add_token(kind))
    }

    /// Scans the rest of a number literal after its first digit: more
    /// digits, then one `.` and at least one digit under one-byte
    /// lookahead, so a bare trailing dot is never consumed.
    fn number(&mut self) -> (r: Option<Token>)
        requires
            old(self).wf(),
            old(self).start + 1 == old(self).current,
            is_digit(byte_at(old(self).source@, old(self).start as int)),
        ensures
            final(self).wf(),
            final(self).source@ == old(self).source@,
            final(self).start == old(self).start,
            final(self).line == old(self).line,
            old(self).current <= final(self).current,
            final(self).current == number_end(old(self).source@, old(self).start as int),
            r matches Some(t) && t.model() == (TokenModel {
                kind: TokenType::Number(
                    f64_of_decimal(
                        old(self).source@.subrange(
                            old(self).start as int,
                            number_end(old(self).source@, old(self).start as int),
                        ),
                    ),
                ),
                lexeme: old(self).source@.subrange(
                    old(self).start as int,
                    number_end(old(self).source@, old(self).start as int),
                ),
                line: old(self).line,
            }),
    {
        loop
            invariant
                self.wf(),
                self.source@ == old(self).source@,
                self.start == old(self).start,
                self.line == old(self).line,
                old(self).current <= self.current,
                digits_end(self.source@, self.current as int) == digits_end(
                    old(self).source@,
                    old(self).start as int,
                ),
            ensures
                self.wf(),
                self.source@ == old(self).source@,
                self.start == old(self).start,
                self.line == old(self).line,
                old(self).current <= self.current,
                self.current == digits_end(old(self).source@, old(self).start as int),
            decreases self.source@.len() - self.current,
        {
            let c = self.peek();
            if !(c >= ('0' as u8) && c <= ('9' as u8)) {
                break;
            }
            self.advance();
        }
        // Look for a fractional part, gated on a digit after the dot.
        if self.peek() == ('.' as u8) && self.peek_next() >= ('0' as u8) && self.peek_next() <= (
        '9' as u8) {
            let ghost e1 = self.current as int;
            // Consume the dot.
            self.advance();
            loop
                invariant
                    self.wf(),
                    self.source@ == old(self).source@,
                    self.start == old(self).start,
                    self.line == old(self).line,
                    e1 + 1 <= self.current,
                    digits_end(self.source@, self.current as int) == digits_end(
                        old(self).source@,
                        e1 + 2,
                    ),
                ensures
                    self.wf(),
                    self.source@ == old(self).source@,
                    self.start == old(self).start,
                    self.line == old(self).line,
                    e1 + 1 <= self.current,
                    self.current == digits_end(old(self).source@, e1 + 2),
                decreases self.source@.len() - self.current,
            {
                let c = self.peek();
                if !(c >= ('0' as u8) && c <= ('9' as u8)) {
                    break;
                }
                self.advance();
            }
        }
        let lex = vstd::slice::slice_subrange(self.source.as_slice(), self.start, self.current);
        let bits = num_parse(lex);
        Some(self.add_token(TokenType::Number(bits)))
    }

    /// Scans a string literal after its opening quote: to the next quote,
    /// counting embedded newlines, or to the unterminated-string report if
    /// the input ends first.
    fn string(&mut self, diags: &mut Diagnostics) -> (r: Option<Token>)
        requires
            old(self).wf(),
            old(self).start + 1 == old(self).current,
        ensures
            final(self).wf(),
            final(self).source@ == old(self).source@,
            final(self).start == old(self).start,
            old(self).current <= final(self).current,
            ({
                let src = old(self).source@;
                let e = string_end(src, old(self).current as int);
                let l2 = (old(self).line + newlines_in(src, old(self).current as int, e)) as u32;
                if e >= src.len() {
                    &&& r is None
                    &&& final(self).current == e
                    &&& final(self).line == l2
                    &&& entries_model(final(diags)) == entries_model(old(diags)).push(
                        DiagnosticModel::Syntax {
                            line: l2,
                            locus: LocusModel::Plain,
                            message: "Unterminated string."@,
                        },
                    )
                    &&& final(diags).had_error
                    &&& final(diags).had_runtime_error == old(diags).had_runtime_error
                } else {
                    &&& r matches Some(t) && t.model() == (TokenModel {
                        kind: TokenType::String(src.subrange(old(self).current as int, e)),
                        lexeme: src.subrange(old(self).start as int, e + 1),
                        line: l2,
                    })
                    &&& final(self).current == e + 1
                    &&& final(self).line == l2
                    &&& *final(diags) == *old(diags)
                }
            }),
    {
        let ghost c0 = self.current as int;
        let ghost l0 = self.line;
        loop
            invariant
                self.wf(),
                self.source@ == old(self).source@,
                self.start == old(self).start,
                c0 <= self.current,
                string_end(self.source@, self.current as int) == string_end(self.source@, c0),
                self.line == l0 + newlines_in(self.source@, c0, self.current as int),
            ensures
                self.wf(),
                self.source@ == old(self).source@,
                self.start == old(self).start,
                c0 <= self.current,
                self.current == string_end(self.source@, c0),
                self.line == l0 + newlines_in(self.source@, c0, self.current as int),
            decreases self.source@.len() - self.current,
        {
            if self.is_at_end() {
                break;
            }
            let c = self.peek();
            if c == ('"' as u8) {
                break;
            }
            proof {
                lemma_newlines_snoc(self.source@, c0, self.current as int);
            }
            self.advance();
            if c == 10 {
                self.line = self.line + 1;
            }
        }

        if self.is_at_end() {
            error(diags, self.line, "Unterminated string.");
            return None;
        }

        // The closing quote.
        self.advance();

        // Trim the surrounding quotes.
        let content = vstd::slice::slice_to_vec(
            vstd::slice::slice_subrange(
                self.source.as_slice(),
                self.start + 1,
                self.current - 1,
            ),
        );
        Some(self.add_token(TokenType::String(content)))
    }

    /// One scanning step, exactly as `spec_scan_token` states it: at most
    /// one token out, at most one diagnostic reported, the cursor moved
    /// past what was consumed.
    fn scan_token(&mut self, diags: &mut Diagnostics) -> (r: Option<Token>)
        requires
            old(self).wf(),
            old(self).current < old(self).source@.len(),
            old(self).start == old(self).current,
        ensures
            final(self).wf(),
            final(self).source@ == old(self).source@,
            final(self).current > old(self).current,
            ({
                let step = spec_scan_token(
                    old(self).source@,
                    old(self).current as int,
                    old(self).line,
                );
                &&& final(self).current == step.next_pos
                &&& final(self).line == step.next_line
                &&& (match r {
                    Some(t) => Some(t.model()),
                    None => None::<TokenModel>,
                }) == step.token
                &&& match step.diag {
                    Some(d) => {
                        &&& entries_model(final(diags)) == entries_model(old(diags)).push(d)
                        &&& final(diags).had_error
                        &&& final(diags).had_runtime_error == old(diags).had_runtime_error
                    },
                    None => *final(diags) == *old(diags),
                }
            }),
    {
        let c = self.advance();
        if c == ('(' as u8) {
            Some(self.add_token(TokenType::LeftParen))
        } else if c == (')' as u8) {
            Some(self.add_token(TokenType::RightParen))
        } else if c == ('{' as u8) {
            Some(self.add_token(TokenType::LeftBrace))
        } else if c == ('}' as u8) {
            Some(self.add_token(TokenType::RightBrace))
        } else if c == (',' as u8) {
            Some(self.add_token(TokenType::Comma))
        } else if c == ('.' as u8) {
            Some(self.add_token(TokenType::Dot))
        } else if c == ('-' as u8) {
            Some(self.add_token(TokenType::Minus))
        } else if c == ('+' as u8) {
            Some(self.add_token(TokenType::Plus))
        } else if c == (';' as u8) {
            Some(self.add_token(TokenType::Semicolon))
        } else if c == ('*' as u8) {
            Some(self.add_token(TokenType::Star))
        } else if c == ('!' as u8) {
            let kind = if self.match_byte('=' as u8) {
                TokenType::BangEqual
            } else {
                TokenType::Bang
            };
            Some(self.add_token(kind))
        } else if c == ('=' as u8) {
            let kind = if self.match_byte('=' as u8) {
                TokenType::EqualEqual
            } else {
                TokenType::Equal
            };
            Some(self.add_token(kind))
        } else if c == ('<' as u8) {
            let kind = if self.match_byte('=' as u8) {
                TokenType::LessEqual
            } else {
                TokenType::Less
            };
            Some(self.add_token(kind))
        } else if c == ('>' as u8) {
            let kind = if self.match_byte('=' as u8) {
                TokenType::GreaterEqual
            } else {
                TokenType::Greater
            };
            Some(self.add_token(kind))
        } else if c == ('/' as u8) {
            if self.match_byte('/' as u8) {
                // A comment goes until the end of the line.
                let ghost ce = comment_end(self.source@, self.current as int);
                loop
                    invariant
                        self.wf(),
                        self.source@ == old(self).source@,
                        self.start == old(self).start,
                        self.line == old(self).line,
                        old(self).current < self.current,
                        comment_end(self.source@, self.current as int) == ce,
                    ensures
                        self.wf(),
                        self.source@ == old(self).source@,
                        self.start == old(self).start,
                        self.line == old(self).line,
                        old(self).current < self.current,
                        self.current == ce,
                    decreases self.source@.len() - self.current,
                {
                    if self.is_at_end() {
                        break;
                    }
                    if self.peek() == 10 {
                        break;
                    }
                    self.advance();
                }
                None
            } else {
                Some(self.add_token(TokenType::Slash))
            }
        } else if c == (' ' as u8) || c == 13 || c == 9 {
            None
        } else if c == 10 {
            self.line = self.line + 1;
            None
        } else if c == ('"' as u8) {
            self.string(diags)
        } else if c >= ('0' as u8) && c <= ('9' as u8) {
            self.number()
        } else if (c >= ('A' as u8) && c <= ('Z' as u8)) || (c >= ('a' as u8) && c <= ('z' as u8))
            || c == ('_' as u8) {
            self.identifier()
        } else {
            error(diags, self.line, "Unexpected character.");
            None
        }
    }

    /// Scans the whole source into its token sequence, always terminated
    /// by exactly one end-of-input sentinel, accumulating every
    /// diagnostic; scanning never aborts.
    pub fn scan_tokens(&mut self, diags: &mut Diagnostics) -> (tokens: Vec<Token>)
        requires
            old(self).wf(),
        ensures
            final(self).wf(),
            final(self).source@ == old(self).source@,
            tokens@.map_values(|t: Token| t.model()) == spec_scan(
                old(self).source@,
                old(self).current as int,
                old(self).line,
            ).0,
            entries_model(final(diags)) == entries_model(old(diags)) + spec_scan(
                old(self).source@,
                old(self).current as int,
                old(self).line,
            ).1,
            final(diags).had_error == (old(diags).had_error || spec_scan(
                old(self).source@,
                old(self).current as int,
                old(self).line,
            ).1.len() > 0),
            final(diags).had_runtime_error == old(diags).had_runtime_error,
            tokens@.len() >= 1,
            tokens@[tokens@.len() - 1].kind is Eof,
    {
        let ghost src = old(self).source@;
        let ghost c0 = old(self).current as int;
        let ghost l0 = old(self).line;
        let mut tokens: Vec<Token> = Vec::new();
        while !self.is_at_end()
            invariant
                self.wf(),
                self.source@ == src,
                tokens@.map_values(|t: Token| t.model()) + spec_scan(
                    src,
                    self.current as int,
                    self.line,
                ).0 == spec_scan(src, c0, l0).0,
                entries_model(diags) + spec_scan(src, self.current as int, self.line).1
                    == entries_model(old(diags)) + spec_scan(src, c0, l0).1,
                entries_model(diags).len() >= entries_model(old(diags)).len(),
                diags.had_error == (old(diags).had_error || entries_model(diags).len()
                    > entries_model(old(diags)).len()),
                diags.had_runtime_error == old(diags).had_runtime_error,
            decreases self.source@.len() - self.current,
        {
            let ghost cur = self.current as int;
            let ghost ln = self.line;
            let ghost toks_pre = tokens@;
            let ghost entries_pre = entries_model(diags);
            // We are at the beginning of the next lexeme.
            self.start = self.current;
            let token_opt = self.scan_token(diags);
            proof {
                assert(spec_scan(src, cur, ln).0 == (match spec_scan_token(src, cur, ln).token {
                    Some(t) => seq![t],
                    None => Seq::<TokenModel>::empty(),
                }) + spec_scan(src, self.current as int, self.line).0);
                assert(spec_scan(src, cur, ln).1 == (match spec_scan_token(src, cur, ln).diag {
                    Some(d) => seq![d],
                    None => Seq::<DiagnosticModel>::empty(),
                }) + spec_scan(src, self.current as int, self.line).1);
            }
            match token_opt {
                Some(t) => {
                    tokens.push(t);
                    proof {
                        assert(tokens@.map_values(|t: Token| t.model()) =~= toks_pre.map_values(
                            |t: Token| t.model(),
                        ).push(t.model()));
                        assert(toks_pre.map_values(|t: Token| t.model()).push(t.model())
                            + spec_scan(src, self.current as int, self.line).0 =~= toks_pre
                            .map_values(|t: Token| t.model()) + (seq![t.model()] + spec_scan(
                            src,
                            self.current as int,
                            self.line,
                        ).0));
                    }
                },
                None => {
                    proof {
                        assert(tokens@.map_values(|t: Token| t.model()) + (Seq::<
                            TokenModel,
                        >::empty() + spec_scan(src, self.current as int, self.line).0)
                            =~= tokens@.map_values(|t: Token| t.model()) + spec_scan(
                            src,
                            self.current as int,
                            self.line,
                        ).0);
                    }
                },
            }
            proof {
                if spec_scan_token(src, cur, ln).diag is Some {
                    let d = spec_scan_token(src, cur, ln).diag.unwrap();
                    assert(entries_model(diags) =~= entries_pre.push(d));
                    assert(entries_pre.push(d) + spec_scan(src, self.current as int, self.line).1
                        =~= entries_pre + (seq![d] + spec_scan(src, self.current as int, self.line).1));
                } else {
                    assert(entries_model(diags) + (Seq::<DiagnosticModel>::empty() + spec_scan(
                        src,
                        self.current as int,
                        self.line,
                    ).1) =~= entries_model(diags) + spec_scan(src, self.current as int, self.line).1);
                }
            }
        }

        let eof = Token { kind: TokenType::Eof, lexeme: Vec::new(), line: 0 };
        tokens.push(eof);
        proof {
            assert(spec_scan(src, self.current as int, self.line).0 =~= seq![eof_token_model()]);
            assert(spec_scan(src, self.current as int, self.line).1 =~= Seq::<
                DiagnosticModel,
            >::empty());
            assert(eof.model() == eof_token_model());
            assert(tokens@.map_values(|t: Token| t.model()) =~= spec_scan(src, c0, l0).0);
            assert(entries_model(diags) =~= entries_model(old(diags)) + spec_scan(src, c0, l0).1);
        }
        tokens
    }
}

} // verus!
