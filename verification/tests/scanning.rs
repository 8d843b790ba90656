use jlox_in_rust::error::{clear_error, Diagnostic, Diagnostics, Locus};
use jlox_in_rust::scanner::Scanner;
use jlox_in_rust::token::{Token, TokenType};

fn scan(source: &str) -> (Vec<Token>, Diagnostics) {
    let mut diags = Diagnostics::new();
    let mut scanner = Scanner::new(source);
    let tokens = scanner.scan_tokens(&mut diags);
    (tokens, diags)
}

fn kinds(tokens: &[Token]) -> Vec<TokenType<Vec<u8>>> {
    tokens.iter().map(|t| t.kind.clone()).collect()
}

#[test]
fn scans_operators_with_lookahead() {
    let (tokens, diags) = scan("!= ! == = <= < >= >");
    assert!(!diags.had_error);
    assert_eq!(
        kinds(&tokens),
        vec![
            TokenType::BangEqual,
            TokenType::Bang,
            TokenType::EqualEqual,
            TokenType::Equal,
            TokenType::LessEqual,
            TokenType::Less,
            TokenType::GreaterEqual,
            TokenType::Greater,
            TokenType::Eof,
        ]
    );
}

#[test]
fn always_ends_with_one_eof() {
    let (tokens, _) = scan("");
    assert_eq!(kinds(&tokens), vec![TokenType::Eof]);
    let (tokens, _) = scan("1");
    assert_eq!(tokens.len(), 2);
    assert_eq!(tokens[1].kind, TokenType::Eof);
    assert_eq!(tokens[1].lexeme, b"");
}

#[test]
fn unterminated_string_reports_and_emits_no_token() {
    let (tokens, diags) = scan("\"abc");
    assert!(diags.had_error);
    assert_eq!(kinds(&tokens), vec![TokenType::Eof]);
    assert_eq!(
        diags.entries,
        vec![Diagnostic::Syntax {
            line: 0,
            locus: Locus::Plain,
            message: "Unterminated string.",
        }]
    );
}

#[test]
fn string_literal_trims_quotes_and_counts_lines() {
    let (tokens, diags) = scan("\"a\nb\"");
    assert!(!diags.had_error);
    assert_eq!(tokens[0].kind, TokenType::String(b"a\nb".to_vec()));
    assert_eq!(tokens[0].lexeme, b"\"a\nb\"");
    assert_eq!(tokens[0].line, 1);
}

#[test]
fn numbers_parse_as_doubles() {
    let (tokens, _) = scan("123 123.45");
    assert_eq!(tokens[0].kind, TokenType::Number(123.0f64.to_bits()));
    assert_eq!(tokens[0].lexeme, b"123");
    assert_eq!(tokens[1].kind, TokenType::Number(123.45f64.to_bits()));
}

#[test]
fn trailing_dot_is_not_part_of_a_number() {
    let (tokens, _) = scan("123.");
    assert_eq!(
        kinds(&tokens),
        vec![TokenType::Number(123.0f64.to_bits()), TokenType::Dot, TokenType::Eof]
    );
}

#[test]
fn keywords_and_identifiers() {
    let (tokens, _) = scan("and nil nilx _under while2 class");
    assert_eq!(
        kinds(&tokens),
        vec![
            TokenType::And,
            TokenType::Nil,
            TokenType::Identifier,
            TokenType::Identifier,
            TokenType::Identifier,
            TokenType::Class,
            TokenType::Eof,
        ]
    );
    assert_eq!(tokens[2].lexeme, b"nilx");
}

#[test]
fn comments_and_whitespace_emit_nothing() {
    let (tokens, diags) = scan("1 // rest of the line (2 + 3)\n\t 4");
    assert!(!diags.had_error);
    assert_eq!(
        kinds(&tokens),
        vec![
            TokenType::Number(1.0f64.to_bits()),
            TokenType::Number(4.0f64.to_bits()),
            TokenType::Eof,
        ]
    );
    assert_eq!(tokens[1].line, 1);
}

#[test]
fn newlines_advance_the_line_counter() {
    let (tokens, _) = scan("1\n2\n\n3");
    assert_eq!(tokens[0].line, 0);
    assert_eq!(tokens[1].line, 1);
    assert_eq!(tokens[2].line, 3);
}

#[test]
fn unexpected_character_is_skipped_and_scanning_continues() {
    let (tokens, diags) = scan("@1#");
    assert_eq!(kinds(&tokens), vec![TokenType::Number(1.0f64.to_bits()), TokenType::Eof]);
    assert_eq!(diags.entries.len(), 2);
    assert_eq!(
        diags.entries[0],
        Diagnostic::Syntax { line: 0, locus: Locus::Plain, message: "Unexpected character." }
    );
    assert!(diags.had_error);
}

#[test]
fn punctuation_tokens_keep_their_lexemes() {
    let (tokens, _) = scan("(){},.;-+*/");
    assert_eq!(
        kinds(&tokens),
        vec![
            TokenType::LeftParen,
            TokenType::RightParen,
            TokenType::LeftBrace,
            TokenType::RightBrace,
            TokenType::Comma,
            TokenType::Dot,
            TokenType::Semicolon,
            TokenType::Minus,
            TokenType::Plus,
            TokenType::Star,
            TokenType::Slash,
            TokenType::Eof,
        ]
    );
    assert_eq!(tokens[0].lexeme, b"(");
    assert_eq!(tokens[10].lexeme, b"/");
}

#[test]
fn clear_error_resets_the_session() {
    let (_, mut diags) = scan("@");
    assert!(diags.had_error);
    clear_error(&mut diags);
    assert!(!diags.had_error);
    assert!(!diags.had_runtime_error);
    assert!(diags.entries.is_empty());
}

#[test]
fn multibyte_text_passes_through_string_literals() {
    let (tokens, diags) = scan("\"héllo\"");
    assert!(!diags.had_error);
    assert_eq!(tokens[0].kind, TokenType::String("héllo".as_bytes().to_vec()));
}
