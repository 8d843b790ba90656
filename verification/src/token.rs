use vstd::prelude::*;

verus! {

/// The closed set of lexical token kinds.
///
/// `S` is the representation of string-literal content: executable code uses
/// `TokenType<Vec<u8>>`, while specifications use `TokenType<Seq<u8>>`.
/// Number literals carry the IEEE-754 binary64 bit pattern of their value.
#[derive(Debug, Clone, PartialEq)]
pub enum TokenType<S> {
    // Single-character tokens.
    LeftParen,
    RightParen,
    LeftBrace,
    RightBrace,
    Comma,
    Dot,
    Semicolon,
    Minus,
    Plus,
    Slash,
    Star,
    // One or two character tokens.
    Equal,
    Bang,
    BangEqual,
    EqualEqual,
    Greater,
    GreaterEqual,
    Less,
    LessEqual,
    // Literals.
    Identifier,
    String(S),
    Number(u64),
    // Keywords.
    And,
    Class,
    Else,
    False,
    Fun,
    For,
    If,
    Nil,
    Or,
    Print,
    Return,
    Super,
    This,
    True,
    Var,
    While,
    Eof,
}

impl TokenType<Vec<u8>> {
    /// The specification-level form of this token kind.
    pub open spec fn model(&self) -> TokenType<Seq<u8>> {
        match self {
            TokenType::LeftParen => TokenType::LeftParen,
            TokenType::RightParen => TokenType::RightParen,
            TokenType::LeftBrace => TokenType::LeftBrace,
            TokenType::RightBrace => TokenType::RightBrace,
            TokenType::Comma => TokenType::Comma,
            TokenType::Dot => TokenType::Dot,
            TokenType::Semicolon => TokenType::Semicolon,
            TokenType::Minus => TokenType::Minus,
            TokenType::Plus => TokenType::Plus,
            TokenType::Slash => TokenType::Slash,
            TokenType::Star => TokenType::Star,
            TokenType::Equal => TokenType::Equal,
            TokenType::Bang => TokenType::Bang,
            TokenType::BangEqual => TokenType::BangEqual,
            TokenType::EqualEqual => TokenType::EqualEqual,
            TokenType::Greater => TokenType::Greater,
            TokenType::GreaterEqual => TokenType::GreaterEqual,
            TokenType::Less => TokenType::Less,
            TokenType::LessEqual => TokenType::LessEqual,
            TokenType::Identifier => TokenType::Identifier,
            TokenType::String(s) => TokenType::String(s@),
            TokenType::Number(bits) => TokenType::Number(*bits),
            TokenType::And => TokenType::And,
            TokenType::Class => TokenType::Class,
            TokenType::Else => TokenType::Else,
            TokenType::False => TokenType::False,
            TokenType::Fun => TokenType::Fun,
            TokenType::For => TokenType::For,
            TokenType::If => TokenType::If,
            TokenType::Nil => TokenType::Nil,
            TokenType::Or => TokenType::Or,
            TokenType::Print => TokenType::Print,
            TokenType::Return => TokenType::Return,
            TokenType::Super => TokenType::Super,
            TokenType::This => TokenType::This,
            TokenType::True => TokenType::True,
            TokenType::Var => TokenType::Var,
            TokenType::While => TokenType::While,
            TokenType::Eof => TokenType::Eof,
        }
    }
}

/// A classified lexeme: its kind, the exact source bytes it was matched
/// from, and the source line it started on.
#[derive(Debug, PartialEq)]
pub struct Token {
    pub kind: TokenType<Vec<u8>>,
    pub lexeme: Vec<u8>,
    pub line: u32,
}

/// The specification-level form of a token.
pub struct TokenModel {
    pub kind: TokenType<Seq<u8>>,
    pub lexeme: Seq<u8>,
    pub line: u32,
}

impl Token {
    pub open spec fn model(&self) -> TokenModel {
        TokenModel { kind: self.kind.model(), lexeme: self.lexeme@, line: self.line }
    }
}


/// The end-of-input sentinel in specification form: what a scan always
/// ends with, and what a parse sees past the end of its tokens.
pub open spec fn eof_token_model() -> TokenModel {
    TokenModel { kind: TokenType::Eof, lexeme: Seq::empty(), line: 0 }
}

/// A position bounded from below. Every scanning or parsing step moves
/// forward, so this never changes a reachable value; it keeps recursion
/// measures visibly decreasing.
pub open spec fn at_least(lo: int, p: int) -> int {
    if p < lo {
        lo
    } else {
        p
    }
}

/// The token kinds that may appear as the operator of a binary expression.
/// An AST node can only ever hold one of these, so an invalid
/// operator/position combination is unrepresentable.
#[derive(Debug, Clone, Copy, PartialEq, Eq, Structural)]
pub enum BinaryTokenType {
    Minus,
    Plus,
    Slash,
    Star,
    BangEqual,
    EqualEqual,
    Greater,
    GreaterEqual,
    Less,
    LessEqual,
}

/// The token kinds that may appear as the operator of a unary expression.
#[derive(Debug, Clone, Copy, PartialEq, Eq, Structural)]
pub enum UnaryTokenType {
    Minus,
    Bang,
}

/// A binary operator together with the source line it came from.
#[derive(Debug, Clone, Copy, PartialEq, Eq, Structural)]
pub struct BinaryToken {
    pub kind: BinaryTokenType,
    pub line: u32,
}

/// A unary operator together with the source line it came from.
#[derive(Debug, Clone, Copy, PartialEq, Eq, Structural)]
pub struct UnaryToken {
    pub kind: UnaryTokenType,
    pub line: u32,
}

} // verus!
