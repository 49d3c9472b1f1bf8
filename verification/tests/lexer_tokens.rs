use ergo_address_core::lexer::Lexer;
use ergo_address_core::token_kind::TokenKind;

fn check(input: &str, kind: TokenKind) {
    let mut lexer = Lexer::new(input);

    let token = lexer.next().unwrap();
    assert_eq!(token.kind, kind);
    assert_eq!(token.text, input);
}

#[test]
fn lex_spaces_and_newlines() {
    check("  \n ", TokenKind::Whitespace);
}

#[test]
fn lex_fn_keyword() {
    check("def", TokenKind::FnKw);
}

#[test]
fn lex_val_keyword() {
    check("val", TokenKind::ValKw);
}

#[test]
fn lex_alphabetic_identifier() {
    check("abcd", TokenKind::Ident);
}

#[test]
fn lex_alphanumeric_identifier() {
    check("ab123cde456", TokenKind::Ident);
}

#[test]
fn lex_mixed_case_identifier() {
    check("ABCdef", TokenKind::Ident);
}

#[test]
fn lex_single_char_identifier() {
    check("x", TokenKind::Ident);
}

#[test]
fn lex_number() {
    check("123456", TokenKind::IntNumber);
}

#[test]
fn lex_plus() {
    check("+", TokenKind::Plus);
}

#[test]
fn lex_minus() {
    check("-", TokenKind::Minus);
}

#[test]
fn lex_star() {
    check("*", TokenKind::Star);
}

#[test]
fn lex_slash() {
    check("/", TokenKind::Slash);
}

#[test]
fn lex_equals() {
    check("=", TokenKind::Equals);
}

#[test]
fn lex_left_parenthesis() {
    check("(", TokenKind::LParen);
}

#[test]
fn lex_right_parenthesis() {
    check(")", TokenKind::RParen);
}

#[test]
fn lex_left_brace() {
    check("{", TokenKind::LBrace);
}

#[test]
fn lex_right_brace() {
    check("}", TokenKind::RBrace);
}

#[test]
fn lex_comment() {
    check("// foo", TokenKind::Comment);
}

#[test]
fn lex_long_number() {
    check("123L", TokenKind::LongNumber);
}

#[test]
fn lex_and_operator() {
    check("&&", TokenKind::And);
}

#[test]
fn lex_error_token() {
    check("?", TokenKind::Error);
}

#[test]
fn lex_keyword_prefix_is_identifier() {
    check("definitely", TokenKind::Ident);
}

#[test]
fn lex_sequence_tiles_input() {
    let input = "val x = 1 + 2 // done";
    let mut lexer = Lexer::new(input);
    let mut kinds = Vec::new();
    let mut rebuilt = String::new();
    while let Some(token) = lexer.next() {
        kinds.push(token.kind);
        rebuilt.push_str(token.text);
    }
    assert_eq!(rebuilt, input);
    assert_eq!(
        kinds,
        vec![
            TokenKind::ValKw,
            TokenKind::Whitespace,
            TokenKind::Ident,
            TokenKind::Whitespace,
            TokenKind::Equals,
            TokenKind::Whitespace,
            TokenKind::IntNumber,
            TokenKind::Whitespace,
            TokenKind::Plus,
            TokenKind::Whitespace,
            TokenKind::IntNumber,
            TokenKind::Whitespace,
            TokenKind::Comment,
        ]
    );
}

#[test]
fn trivia_kinds() {
    assert!(TokenKind::Whitespace.is_trivia());
    assert!(TokenKind::Comment.is_trivia());
    assert!(!TokenKind::Ident.is_trivia());
    assert!(!TokenKind::FnKw.is_trivia());
    assert_eq!(TokenKind::FnKw.description(), "‘def’");
    assert_eq!(TokenKind::Star.description(), "‘*’");
    assert_eq!(TokenKind::Error.description(), "an unrecognized token");
}
