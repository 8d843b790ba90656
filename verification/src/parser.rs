use vstd::prelude::*;

use crate::error::{entries_model, error_at_token, DiagnosticModel, Diagnostics, LocusModel};
use crate::expr::{expr_model, Expr, Literal};
use crate::token::{
    at_least, eof_token_model, BinaryToken, BinaryTokenType, Token, TokenModel, TokenType,
    UnaryToken, UnaryTokenType,
};

verus! {

// The grammar, lowest to highest precedence, left-associative at each
// binary level:
//
//   expression -> equality
//   equality   -> comparison ( ( "!=" | "==" ) comparison )*
//   comparison -> term ( ( ">" | ">=" | "<" | "<=" ) term )*
//   term       -> factor ( ( "-" | "+" ) factor )*
//   factor     -> unary ( ( "/" | "*" ) unary )*
//   unary      -> ( "!" | "-" ) unary | primary
//   primary    -> literal | "(" expression ")"
//
// The specification functions below define the parse of a token sequence
// from a position as a partial function: the parsed tree and the position
// one past it, or the diagnostic the failure reports.

/// The token at a position, with the end-of-input sentinel past the end.
pub open spec fn tok_at(toks: Seq<TokenModel>, pos: int) -> TokenModel {
    if 0 <= pos < toks.len() {
        toks[pos]
    } else {
        eof_token_model()
    }
}

/// The diagnostic a parse failure at a token reports: located `at end`
/// for the end-of-input sentinel, at the token's lexeme otherwise.
pub open spec fn parse_error_at(t: TokenModel, message: Seq<char>) -> DiagnosticModel {
    DiagnosticModel::Syntax {
        line: t.line,
        locus: if t.kind is Eof {
            LocusModel::AtEnd
        } else {
            LocusModel::At(t.lexeme)
        },
        message,
    }
}

/// A parse outcome: the tree and the position one past it, or the
/// diagnostic that was reported.
pub type SpecParsed = Result<(Expr<Seq<u8>>, int), DiagnosticModel>;

/// How many tokens remain at a position; zero past the end. The recursion
/// measure of the parsing functions.
pub open spec fn rem(toks: Seq<TokenModel>, pos: int) -> int {
    if pos <= toks.len() {
        toks.len() - pos
    } else {
        0
    }
}

/// The binary operators of the equality level.
pub open spec fn spec_equality_op(k: TokenType<Seq<u8>>) -> Option<BinaryTokenType> {
    match k {
        TokenType::BangEqual => Some(BinaryTokenType::BangEqual),
        TokenType::EqualEqual => Some(BinaryTokenType::EqualEqual),
        _ => None,
    }
}

/// The binary operators of the comparison level.
pub open spec fn spec_comparison_op(k: TokenType<Seq<u8>>) -> Option<BinaryTokenType> {
    match k {
        TokenType::Greater => Some(BinaryTokenType::Greater),
        TokenType::GreaterEqual => Some(BinaryTokenType::GreaterEqual),
        TokenType::Less => Some(BinaryTokenType::Less),
        TokenType::LessEqual => Some(BinaryTokenType::LessEqual),
        _ => None,
    }
}

/// The binary operators of the term level.
pub open spec fn spec_term_op(k: TokenType<Seq<u8>>) -> Option<BinaryTokenType> {
    match k {
        TokenType::Minus => Some(BinaryTokenType::Minus),
        TokenType::Plus => Some(BinaryTokenType::Plus),
        _ => None,
    }
}

/// The binary operators of the factor level.
pub open spec fn spec_factor_op(k: TokenType<Seq<u8>>) -> Option<BinaryTokenType> {
    match k {
        TokenType::Slash => Some(BinaryTokenType::Slash),
        TokenType::Star => Some(BinaryTokenType::Star),
        _ => None,
    }
}

/// The unary operators.
pub open spec fn spec_unary_op(k: TokenType<Seq<u8>>) -> Option<UnaryTokenType> {
    match k {
        TokenType::Bang => Some(UnaryTokenType::Bang),
        TokenType::Minus => Some(UnaryTokenType::Minus),
        _ => None,
    }
}

pub open spec fn spec_expression(toks: Seq<TokenModel>, pos: int) -> SpecParsed
    decreases rem(toks, pos), 10int,
{
    spec_equality(toks, pos)
}

pub open spec fn spec_equality(toks: Seq<TokenModel>, pos: int) -> SpecParsed
    decreases rem(toks, pos), 9int,
{
    match spec_comparison(toks, pos) {
        Err(d) => Err(d),
        Ok((e, p)) => spec_equality_rest(toks, e, at_least(pos, p)),
    }
}

/// The left fold of the equality level: while the next token is one of its
/// operators, consume it, parse one more comparison, and fold left.
pub open spec fn spec_equality_rest(toks: Seq<TokenModel>, acc: Expr<Seq<u8>>, pos: int) -> SpecParsed
    decreases rem(toks, pos), 8int,
{
    let t = tok_at(toks, pos);
    match spec_equality_op(t.kind) {
        None => Ok((acc, pos)),
        Some(opk) => match spec_comparison(toks, pos + 1) {
            Err(d) => Err(d),
            Ok((right, p2)) => spec_equality_rest(
                toks,
                Expr::Binary(
                    Box::new(acc),
                    BinaryToken { kind: opk, line: t.line },
                    Box::new(right),
                ),
                at_least(pos + 1, p2),
            ),
        },
    }
}

pub open spec fn spec_comparison(toks: Seq<TokenModel>, pos: int) -> SpecParsed
    decreases rem(toks, pos), 7int,
{
    match spec_term(toks, pos) {
        Err(d) => Err(d),
        Ok((e, p)) => spec_comparison_rest(toks, e, at_least(pos, p)),
    }
}

pub open spec fn spec_comparison_rest(
    toks: Seq<TokenModel>,
    acc: Expr<Seq<u8>>,
    pos: int,
) -> SpecParsed
    decreases rem(toks, pos), 6int,
{
    let t = tok_at(toks, pos);
    match spec_comparison_op(t.kind) {
        None => Ok((acc, pos)),
        Some(opk) => match spec_term(toks, pos + 1) {
            Err(d) => Err(d),
            Ok((right, p2)) => spec_comparison_rest(
                toks,
                Expr::Binary(
                    Box::new(acc),
                    BinaryToken { kind: opk, line: t.line },
                    Box::new(right),
                ),
                at_least(pos + 1, p2),
            ),
        },
    }
}

pub open spec fn spec_term(toks: Seq<TokenModel>, pos: int) -> SpecParsed
    decreases rem(toks, pos), 5int,
{
    match spec_factor(toks, pos) {
        Err(d) => Err(d),
        Ok((e, p)) => spec_term_rest(toks, e, at_least(pos, p)),
    }
}

pub open spec fn spec_term_rest(toks: Seq<TokenModel>, acc: Expr<Seq<u8>>, pos: int) -> SpecParsed
    decreases rem(toks, pos), 4int,
{
    let t = tok_at(toks, pos);
    match spec_term_op(t.kind) {
        None => Ok((acc, pos)),
        Some(opk) => match spec_factor(toks, pos + 1) {
            Err(d) => Err(d),
            Ok((right, p2)) => spec_term_rest(
                toks,
                Expr::Binary(
                    Box::new(acc),
                    BinaryToken { kind: opk, line: t.line },
                    Box::new(right),
                ),
                at_least(pos + 1, p2),
            ),
        },
    }
}

pub open spec fn spec_factor(toks: Seq<TokenModel>, pos: int) -> SpecParsed
    decreases rem(toks, pos), 3int,
{
    match spec_unary(toks, pos) {
        Err(d) => Err(d),
        Ok((e, p)) => spec_factor_rest(toks, e, at_least(pos, p)),
    }
}

pub open spec fn spec_factor_rest(toks: Seq<TokenModel>, acc: Expr<Seq<u8>>, pos: int) -> SpecParsed
    decreases rem(toks, pos), 2int,
{
    let t = tok_at(toks, pos);
    match spec_factor_op(t.kind) {
        None => Ok((acc, pos)),
        Some(opk) => match spec_unary(toks, pos + 1) {
            Err(d) => Err(d),
            Ok((right, p2)) => spec_factor_rest(
                toks,
                Expr::Binary(
                    Box::new(acc),
                    BinaryToken { kind: opk, line: t.line },
                    Box::new(right),
                ),
                at_least(pos + 1, p2),
            ),
        },
    }
}

/// Unary is right-recursive on itself, so chained prefix operators nest.
pub open spec fn spec_unary(toks: Seq<TokenModel>, pos: int) -> SpecParsed
    decreases rem(toks, pos), 1int,
{
    let t = tok_at(toks, pos);
    match spec_unary_op(t.kind) {
        Some(opk) => match spec_unary(toks, pos + 1) {
            Err(d) => Err(d),
            Ok((operand, p)) => Ok(
                (Expr::Unary(UnaryToken { kind: opk, line: t.line }, Box::new(operand)), p),
            ),
        },
        None => spec_primary(toks, pos),
    }
}

/// Primary consumes one literal token directly into a `Literal` node; on
/// `(` it parses a nested expression and requires the matching `)`; any
/// other token is `Expect expression.`.
pub open spec fn spec_primary(toks: Seq<TokenModel>, pos: int) -> SpecParsed
    decreases rem(toks, pos), 0int,
{
    let t = tok_at(toks, pos);
    match t.kind {
        TokenType::False => Ok((Expr::Literal(Literal::Boolean(false)), pos + 1)),
        TokenType::True => Ok((Expr::Literal(Literal::Boolean(true)), pos + 1)),
        TokenType::Nil => Ok((Expr::Literal(Literal::Nil), pos + 1)),
        TokenType::Number(bits) => Ok((Expr::Literal(Literal::Number(bits)), pos + 1)),
        TokenType::String(s) => Ok((Expr::Literal(Literal::String(s)), pos + 1)),
        TokenType::LeftParen => match spec_expression(toks, pos + 1) {
            Err(d) => Err(d),
            Ok((inner, p2)) => {
                let t2 = tok_at(toks, p2);
                if t2.kind is RightParen {
                    Ok((Expr::Grouping(Box::new(inner)), p2 + 1))
                } else {
                    Err(parse_error_at(t2, "Expect ')' after expression."@))
                }
            },
        },
        _ => Err(parse_error_at(t, "Expect expression."@)),
    }
}


/// Whether a token kind starts a statement: where panic-mode recovery
/// stops discarding.
pub open spec fn spec_sync_boundary(k: TokenType<Seq<u8>>) -> bool {
    match k {
        TokenType::Class => true,
        TokenType::Fun => true,
        TokenType::Var => true,
        TokenType::For => true,
        TokenType::If => true,
        TokenType::While => true,
        TokenType::Print => true,
        TokenType::Return => true,
        _ => false,
    }
}

/// Where panic-mode recovery lands when it walks on from a position with
/// the given token just consumed: the first position after a semicolon,
/// at a statement-starting keyword, or at the end of the input.
pub open spec fn spec_sync_from(toks: Seq<TokenModel>, prev: TokenType<Seq<u8>>, pos: int) -> int
    decreases rem(toks, pos),
{
    if tok_at(toks, pos).kind is Eof {
        pos
    } else if prev is Semicolon {
        pos
    } else if spec_sync_boundary(tok_at(toks, pos).kind) {
        pos
    } else {
        spec_sync_from(toks, tok_at(toks, pos).kind, pos + 1)
    }
}

/// Where panic-mode recovery from a position lands.
pub open spec fn spec_synchronize(toks: Seq<TokenModel>, pos: int) -> int {
    if tok_at(toks, pos).kind is Eof {
        pos
    } else {
        spec_sync_from(toks, tok_at(toks, pos).kind, pos + 1)
    }
}

/// A parse failure that has already been reported through diagnostics.
struct ParseError;

/// What one parsing step promises: on a successful parse, the tree with
/// the cursor one past it and the session untouched; on a failure, exactly
/// the one diagnostic pushed and the syntax flag set.
pub open spec fn parse_outcome<T>(
    start: int,
    sp: SpecParsed,
    cur: int,
    parsed: Option<Expr<Seq<u8>>>,
    r: Result<T, ()>,
    d0: Diagnostics,
    d1: Diagnostics,
) -> bool {
    &&& d1.had_runtime_error == d0.had_runtime_error
    &&& match sp {
        Ok((e, p)) => {
            &&& r is Ok
            &&& parsed == Some(e)
            &&& cur == p
            &&& cur > start
            &&& d1 == d0
        },
        Err(d) => {
            &&& r is Err
            &&& entries_model(&d1) == entries_model(&d0).push(d)
            &&& d1.had_error
            &&& cur >= start
        },
    }
}

/// Recursive-descent parser: a cursor over a scanned token sequence,
/// which must end with the end-of-input sentinel.
pub struct Parser<'a> {
    pub tokens: &'a [Token],
    pub current: usize,
}

impl<'a> Parser<'a> {
    /// The parser never runs off its token sequence: the sequence is
    /// nonempty, ends with the sentinel, and the cursor is inside it.
    pub open spec fn wf(&self) -> bool {
        &&& self.tokens@.len() >= 1
        &&& self.tokens@[self.tokens@.len() - 1].kind is Eof
        &&& self.current < self.tokens@.len()
    }

    /// The specification-level form of the token sequence.
    pub open spec fn models(&self) -> Seq<TokenModel> {
        self.tokens@.map_values(|t: Token| t.model())
    }

    pub fn new(tokens: &'a [Token]) -> (p: Parser<'a>)
        requires
            tokens@.len() >= 1,
            tokens@[tokens@.len() - 1].kind is Eof,
        ensures
            p.wf(),
            p.tokens@ == tokens@,
            p.current == 0,
    {
        Parser { tokens, current: 0 }
    }


    /// Panic-mode recovery: discards tokens until a statement boundary.
    /// The expression grammar never invokes it; it stands ready for a
    /// statement grammar on top of this one.
    #[verifier::loop_isolation(false)]
    pub fn synchronize(&mut self)
        requires
            old(self).wf(),
        ensures
            final(self).wf(),
            final(self).tokens@ == old(self).tokens@,
            final(self).current == spec_synchronize(
                old(self).models(),
                old(self).current as int,
            ),
    {
        let mut previous = self.advance();
        loop
            invariant
                self.wf(),
                self.tokens@ == old(self).tokens@,
                spec_sync_from(old(self).models(), previous.kind.model(), self.current as int)
                    == spec_synchronize(old(self).models(), old(self).current as int),
            decreases self.tokens@.len() - self.current,
        {
            if self.is_at_end() {
                return;
            }
            if matches!(previous.kind, TokenType::Semicolon) {
                return;
            }
            let boundary = matches!(
                self.peek().kind,
                TokenType::Class | TokenType::Fun | TokenType::Var | TokenType::For
                    | TokenType::If | TokenType::While | TokenType::Print | TokenType::Return
            );
            if boundary {
                return;
            }
            previous = self.advance();
        }
    }

    fn peek(&self) -> (t: &'a Token)
        requires
            self.wf(),
        ensures
            *t == self.tokens@[self.current as int],
    {
        vstd::slice::slice_index_get(self.tokens, self.current)
    }

    fn is_at_end(&self) -> (r: bool)
        requires
            self.wf(),
        ensures
            r == (self.tokens@[self.current as int].kind is Eof),
    {
        matches!(self.peek().kind, TokenType::Eof)
    }

    /// Hands out the current token and moves past it, except at the
    /// sentinel, which is never passed.
    fn advance(&mut self) -> (t: &'a Token)
        requires
            old(self).wf(),
        ensures
            final(self).wf(),
            final(self).tokens@ == old(self).tokens@,
            *t == old(self).tokens@[old(self).current as int],
            t.kind is Eof ==> final(self).current == old(self).current,
            !(t.kind is Eof) ==> final(self).current == old(self).current + 1,
    {
        let _n: usize = self.tokens.len();
        let t = vstd::slice::slice_index_get(self.tokens, self.current);
        if !matches!(t.kind, TokenType::Eof) {
            self.current = self.current + 1;
        }
        t
    }

    fn match_equality_op(&mut self) -> (r: Option<BinaryToken>)
        requires
            old(self).wf(),
        ensures
            final(self).wf(),
            final(self).tokens@ == old(self).tokens@,
            match spec_equality_op(tok_at(old(self).models(), old(self).current as int).kind) {
                Some(opk) => {
                    &&& r == Some(
                        BinaryToken {
                            kind: opk,
                            line: old(self).tokens@[old(self).current as int].line,
                        },
                    )
                    &&& final(self).current == old(self).current + 1
                },
                None => r is None && final(self).current == old(self).current,
            },
    {
        let matched = match &self.peek().kind {
            TokenType::BangEqual => Some(BinaryTokenType::BangEqual),
            TokenType::EqualEqual => Some(BinaryTokenType::EqualEqual),
            _ => None,
        };
        match matched {
            Some(kind) => {
                let t = self.advance();
                Some(BinaryToken { kind, line: t.line })
            },
            None => None,
        }
    }

    fn match_comparison_op(&mut self) -> (r: Option<BinaryToken>)
        requires
            old(self).wf(),
        ensures
            final(self).wf(),
            final(self).tokens@ == old(self).tokens@,
            match spec_comparison_op(tok_at(old(self).models(), old(self).current as int).kind) {
                Some(opk) => {
                    &&& r == Some(
                        BinaryToken {
                            kind: opk,
                            line: old(self).tokens@[old(self).current as int].line,
                        },
                    )
                    &&& final(self).current == old(self).current + 1
                },
                None => r is None && final(self).current == old(self).current,
            },
    {
        let matched = match &self.peek().kind {
            TokenType::Greater => Some(BinaryTokenType::Greater),
            TokenType::GreaterEqual => Some(BinaryTokenType::GreaterEqual),
            TokenType::Less => Some(BinaryTokenType::Less),
            TokenType::LessEqual => Some(BinaryTokenType::LessEqual),
            _ => None,
        };
        match matched {
            Some(kind) => {
                let t = self.advance();
                Some(BinaryToken { kind, line: t.line })
            },
            None => None,
        }
    }

    fn match_term_op(&mut self) -> (r: Option<BinaryToken>)
        requires
            old(self).wf(),
        ensures
            final(self).wf(),
            final(self).tokens@ == old(self).tokens@,
            match spec_term_op(tok_at(old(self).models(), old(self).current as int).kind) {
                Some(opk) => {
                    &&& r == Some(
                        BinaryToken {
                            kind: opk,
                            line: old(self).tokens@[old(self).current as int].line,
                        },
                    )
                    &&& final(self).current == old(self).current + 1
                },
                None => r is None && final(self).current == old(self).current,
            },
    {
        let matched = match &self.peek().kind {
            TokenType::Minus => Some(BinaryTokenType::Minus),
            TokenType::Plus => Some(BinaryTokenType::Plus),
            _ => None,
        };
        match matched {
            Some(kind) => {
                let t = self.advance();
                Some(BinaryToken { kind, line: t.line })
            },
            None => None,
        }
    }

    fn match_factor_op(&mut self) -> (r: Option<BinaryToken>)
        requires
            old(self).wf(),
        ensures
            final(self).wf(),
            final(self).tokens@ == old(self).tokens@,
            match spec_factor_op(tok_at(old(self).models(), old(self).current as int).kind) {
                Some(opk) => {
                    &&& r == Some(
                        BinaryToken {
                            kind: opk,
                            line: old(self).tokens@[old(self).current as int].line,
                        },
                    )
                    &&& final(self).current == old(self).current + 1
                },
                None => r is None && final(self).current == old(self).current,
            },
    {
        let matched = match &self.peek().kind {
            TokenType::Slash => Some(BinaryTokenType::Slash),
            TokenType::Star => Some(BinaryTokenType::Star),
            _ => None,
        };
        match matched {
            Some(kind) => {
                let t = self.advance();
                Some(BinaryToken { kind, line: t.line })
            },
            None => None,
        }
    }

    fn match_unary_op(&mut self) -> (r: Option<UnaryToken>)
        requires
            old(self).wf(),
        ensures
            final(self).wf(),
            final(self).tokens@ == old(self).tokens@,
            match spec_unary_op(tok_at(old(self).models(), old(self).current as int).kind) {
                Some(opk) => {
                    &&& r == Some(
                        UnaryToken {
                            kind: opk,
                            line: old(self).tokens@[old(self).current as int].line,
                        },
                    )
                    &&& final(self).current == old(self).current + 1
                },
                None => r is None && final(self).current == old(self).current,
            },
    {
        let matched = match &self.peek().kind {
            TokenType::Bang => Some(UnaryTokenType::Bang),
            TokenType::Minus => Some(UnaryTokenType::Minus),
            _ => None,
        };
        match matched {
            Some(kind) => {
                let t = self.advance();
                Some(UnaryToken { kind, line: t.line })
            },
            None => None,
        }
    }

    /// Parses one expression. On success the session is untouched; on
    /// failure the error has already been reported through it.
    pub fn parse(&mut self, diags: &mut Diagnostics) -> (r: Option<Box<Expr<Vec<u8>>>>)
        requires
            old(self).wf(),
        ensures
            final(self).wf(),
            final(self).tokens@ == old(self).tokens@,
            parse_outcome(
                old(self).current as int,
                spec_expression(old(self).models(), old(self).current as int),
                final(self).current as int,
                match r {
                    Some(b) => Some(expr_model(*b)),
                    None => None,
                },
                match r {
                    Some(_) => Ok::<(), ()>(()),
                    None => Err(()),
                },
                *old(diags),
                *final(diags),
            ),
    {
        match self.expression(diags) {
            Ok(e) => Some(e),
            Err(_) => None,
        }
    }

    fn expression(&mut self, diags: &mut Diagnostics) -> (r: Result<Box<Expr<Vec<u8>>>, ParseError>)
        requires
            old(self).wf(),
        ensures
            final(self).wf(),
            final(self).tokens@ == old(self).tokens@,
            parse_outcome(
                old(self).current as int,
                spec_expression(old(self).models(), old(self).current as int),
                final(self).current as int,
                match r {
                    Ok(b) => Some(expr_model(*b)),
                    Err(_) => None,
                },
                match r {
                    Ok(_) => Ok::<(), ()>(()),
                    Err(_) => Err(()),
                },
                *old(diags),
                *final(diags),
            ),
        decreases self.tokens@.len() - self.current, 10int,
    {
        self.equality(diags)
    }

    #[verifier::loop_isolation(false)]
    fn equality(&mut self, diags: &mut Diagnostics) -> (r: Result<Box<Expr<Vec<u8>>>, ParseError>)
        requires
            old(self).wf(),
        ensures
            final(self).wf(),
            final(self).tokens@ == old(self).tokens@,
            parse_outcome(
                old(self).current as int,
                spec_equality(old(self).models(), old(self).current as int),
                final(self).current as int,
                match r {
                    Ok(b) => Some(expr_model(*b)),
                    Err(_) => None,
                },
                match r {
                    Ok(_) => Ok::<(), ()>(()),
                    Err(_) => Err(()),
                },
                *old(diags),
                *final(diags),
            ),
        decreases self.tokens@.len() - self.current, 9int,
    {
        let ghost ms = old(self).models();
        let ghost c0 = old(self).current as int;
        let mut expr = match self.comparison(diags) {
            Ok(e) => e,
            Err(pe) => {
                return Err(pe);
            },
        };
        loop
            invariant
                self.wf(),
                self.tokens@ == old(self).tokens@,
                *diags == *old(diags),
                self.current > c0,
                spec_equality_rest(ms, expr_model(*expr), self.current as int) == spec_equality(
                    ms,
                    c0,
                ),
            decreases self.tokens@.len() - self.current,
        {
            match self.match_equality_op() {
                None => {
                    return Ok(expr);
                },
                Some(op) => {
                    let right = match self.comparison(diags) {
                        Ok(e) => e,
                        Err(pe) => {
                            return Err(pe);
                        },
                    };
                    expr = Box::new(Expr::Binary(expr, op, right));
                },
            }
        }
    }

    #[verifier::loop_isolation(false)]
    fn comparison(&mut self, diags: &mut Diagnostics) -> (r: Result<Box<Expr<Vec<u8>>>, ParseError>)
        requires
            old(self).wf(),
        ensures
            final(self).wf(),
            final(self).tokens@ == old(self).tokens@,
            parse_outcome(
                old(self).current as int,
                spec_comparison(old(self).models(), old(self).current as int),
                final(self).current as int,
                match r {
                    Ok(b) => Some(expr_model(*b)),
                    Err(_) => None,
                },
                match r {
                    Ok(_) => Ok::<(), ()>(()),
                    Err(_) => Err(()),
                },
                *old(diags),
                *final(diags),
            ),
        decreases self.tokens@.len() - self.current, 7int,
    {
        let ghost ms = old(self).models();
        let ghost c0 = old(self).current as int;
        let mut expr = match self.term(diags) {
            Ok(e) => e,
            Err(pe) => {
                return Err(pe);
            },
        };
        loop
            invariant
                self.wf(),
                self.tokens@ == old(self).tokens@,
                *diags == *old(diags),
                self.current > c0,
                spec_comparison_rest(ms, expr_model(*expr), self.current as int) == spec_comparison(
                    ms,
                    c0,
                ),
            decreases self.tokens@.len() - self.current,
        {
            match self.match_comparison_op() {
                None => {
                    return Ok(expr);
                },
                Some(op) => {
                    let right = match self.term(diags) {
                        Ok(e) => e,
                        Err(pe) => {
                            return Err(pe);
                        },
                    };
                    expr = Box::new(Expr::Binary(expr, op, right));
                },
            }
        }
    }

    #[verifier::loop_isolation(false)]
    fn term(&mut self, diags: &mut Diagnostics) -> (r: Result<Box<Expr<Vec<u8>>>, ParseError>)
        requires
            old(self).wf(),
        ensures
            final(self).wf(),
            final(self).tokens@ == old(self).tokens@,
            parse_outcome(
                old(self).current as int,
                spec_term(old(self).models(), old(self).current as int),
                final(self).current as int,
                match r {
                    Ok(b) => Some(expr_model(*b)),
                    Err(_) => None,
                },
                match r {
                    Ok(_) => Ok::<(), ()>(()),
                    Err(_) => Err(()),
                },
                *old(diags),
                *final(diags),
            ),
        decreases self.tokens@.len() - self.current, 5int,
    {
        let ghost ms = old(self).models();
        let ghost c0 = old(self).current as int;
        let mut expr = match self.factor(diags) {
            Ok(e) => e,
            Err(pe) => {
                return Err(pe);
            },
        };
        loop
            invariant
                self.wf(),
                self.tokens@ == old(self).tokens@,
                *diags == *old(diags),
                self.current > c0,
                spec_term_rest(ms, expr_model(*expr), self.current as int) == spec_term(ms, c0),
            decreases self.tokens@.len() - self.current,
        {
            match self.match_term_op() {
                None => {
                    return Ok(expr);
                },
                Some(op) => {
                    let right = match self.factor(diags) {
                        Ok(e) => e,
                        Err(pe) => {
                            return Err(pe);
                        },
                    };
                    expr = Box::new(Expr::Binary(expr, op, right));
                },
            }
        }
    }

    #[verifier::loop_isolation(false)]
    fn factor(&mut self, diags: &mut Diagnostics) -> (r: Result<Box<Expr<Vec<u8>>>, ParseError>)
        requires
            old(self).wf(),
        ensures
            final(self).wf(),
            final(self).tokens@ == old(self).tokens@,
            parse_outcome(
                old(self).current as int,
                spec_factor(old(self).models(), old(self).current as int),
                final(self).current as int,
                match r {
                    Ok(b) => Some(expr_model(*b)),
                    Err(_) => None,
                },
                match r {
                    Ok(_) => Ok::<(), ()>(()),
                    Err(_) => Err(()),
                },
                *old(diags),
                *final(diags),
            ),
        decreases self.tokens@.len() - self.current, 3int,
    {
        let ghost ms = old(self).models();
        let ghost c0 = old(self).current as int;
        let mut expr = match self.unary(diags) {
            Ok(e) => e,
            Err(pe) => {
                return Err(pe);
            },
        };
        loop
            invariant
                self.wf(),
                self.tokens@ == old(self).tokens@,
                *diags == *old(diags),
                self.current > c0,
                spec_factor_rest(ms, expr_model(*expr), self.current as int) == spec_factor(ms, c0),
            decreases self.tokens@.len() - self.current,
        {
            match self.match_factor_op() {
                None => {
                    return Ok(expr);
                },
                Some(op) => {
                    let right = match self.unary(diags) {
                        Ok(e) => e,
                        Err(pe) => {
                            return Err(pe);
                        },
                    };
                    expr = Box::new(Expr::Binary(expr, op, right));
                },
            }
        }
    }

    fn unary(&mut self, diags: &mut Diagnostics) -> (r: Result<Box<Expr<Vec<u8>>>, ParseError>)
        requires
            old(self).wf(),
        ensures
            final(self).wf(),
            final(self).tokens@ == old(self).tokens@,
            parse_outcome(
                old(self).current as int,
                spec_unary(old(self).models(), old(self).current as int),
                final(self).current as int,
                match r {
                    Ok(b) => Some(expr_model(*b)),
                    Err(_) => None,
                },
                match r {
                    Ok(_) => Ok::<(), ()>(()),
                    Err(_) => Err(()),
                },
                *old(diags),
                *final(diags),
            ),
        decreases self.tokens@.len() - self.current, 1int,
    {
        match self.match_unary_op() {
            Some(op) => {
                let operand = match self.unary(diags) {
                    Ok(e) => e,
                    Err(pe) => {
                        return Err(pe);
                    },
                };
                Ok(Box::new(Expr::Unary(op, operand)))
            },
            None => self.primary(diags),
        }
    }

    fn primary(&mut self, diags: &mut Diagnostics) -> (r: Result<Box<Expr<Vec<u8>>>, ParseError>)
        requires
            old(self).wf(),
        ensures
            final(self).wf(),
            final(self).tokens@ == old(self).tokens@,
            parse_outcome(
                old(self).current as int,
                spec_primary(old(self).models(), old(self).current as int),
                final(self).current as int,
                match r {
                    Ok(b) => Some(expr_model(*b)),
                    Err(_) => None,
                },
                match r {
                    Ok(_) => Ok::<(), ()>(()),
                    Err(_) => Err(()),
                },
                *old(diags),
                *final(diags),
            ),
        decreases self.tokens@.len() - self.current, 0int,
    {
        let t = self.peek();
        match &t.kind {
            TokenType::False => {
                self.advance();
                Ok(Box::new(Expr::Literal(Literal::Boolean(false))))
            },
            TokenType::True => {
                self.advance();
                Ok(Box::new(Expr::Literal(Literal::Boolean(true))))
            },
            TokenType::Nil => {
                self.advance();
                Ok(Box::new(Expr::Literal(Literal::Nil)))
            },
            TokenType::Number(bits) => {
                let b = *bits;
                self.advance();
                Ok(Box::new(Expr::Literal(Literal::Number(b))))
            },
            TokenType::String(s) => {
                let content = vstd::slice::slice_to_vec(s.as_slice());
                self.advance();
                Ok(Box::new(Expr::Literal(Literal::String(content))))
            },
            TokenType::LeftParen => {
                self.advance();
                let inner = match self.expression(diags) {
                    Ok(e) => e,
                    Err(pe) => {
                        return Err(pe);
                    },
                };
                let t2 = self.peek();
                if matches!(t2.kind, TokenType::RightParen) {
                    self.advance();
                    Ok(Box::new(Expr::Grouping(inner)))
                } else {
                    error_at_token(diags, t2, "Expect ')' after expression.");
                    Err(ParseError)
                }
            },
            _ => {
                error_at_token(diags, t, "Expect expression.");
                Err(ParseError)
            },
        }
    }
}

} // verus!
