//! Token classification for the scripting-language lexer.

use vstd::prelude::*;

verus! {

/// The kinds of token the lexer produces.
#[derive(Debug, Copy, Clone, PartialEq, Eq, Structural)]
pub enum TokenKind {
    /// A run of spaces and newlines.
    Whitespace,
    /// The `def` keyword.
    FnKw,
    /// The `val` keyword.
    ValKw,
    /// A letter followed by letters and digits.
    Ident,
    /// A run of decimal digits.
    IntNumber,
    /// A run of decimal digits with an `L` suffix.
    LongNumber,
    /// `+`
    Plus,
    /// `-`
    Minus,
    /// `*`
    Star,
    /// `/`
    Slash,
    /// `&&`
    And,
    /// `=`
    Equals,
    /// `(`
    LParen,
    /// `)`
    RParen,
    /// `{`
    LBrace,
    /// `}`
    RBrace,
    /// A line comment, `//` to the end of the line.
    Comment,
    /// A character no token starts with.
    Error,
}

impl TokenKind {
    /// Whitespace and comments carry no meaning for a parser.
    pub fn is_trivia(self) -> (r: bool)
        ensures
            r == (self is Whitespace || self is Comment),
    {
        matches!(self, TokenKind::Whitespace | TokenKind::Comment)
    }

    /// A short human-readable name for the kind, for diagnostics.
    pub fn description(self) -> (r: &'static str)
        ensures
            r@ == match self {
                TokenKind::Whitespace => "whitespace"@,
                TokenKind::FnKw => "‘def’"@,
                TokenKind::ValKw => "‘val’"@,
                TokenKind::Ident => "identifier"@,
                TokenKind::IntNumber => "number"@,
                TokenKind::LongNumber => "number"@,
                TokenKind::Plus => "‘+’"@,
                TokenKind::Minus => "‘-’"@,
                TokenKind::Star => "‘*’"@,
                TokenKind::Slash => "‘/’"@,
                TokenKind::And => "‘&&’"@,
                TokenKind::Equals => "‘=’"@,
                TokenKind::LParen => "‘(’"@,
                TokenKind::RParen => "‘)’"@,
                TokenKind::LBrace => "‘{’"@,
                TokenKind::RBrace => "‘}’"@,
                TokenKind::Comment => "comment"@,
                TokenKind::Error => "an unrecognized token"@,
            },
    {
        let s = match self {
            TokenKind::Whitespace => "whitespace",
            TokenKind::FnKw => "‘def’",
            TokenKind::ValKw => "‘val’",
            TokenKind::Ident => "identifier",
            TokenKind::IntNumber => "number",
            TokenKind::LongNumber => "number",
            TokenKind::Plus => "‘+’",
            TokenKind::Minus => "‘-’",
            TokenKind::Star => "‘*’",
            TokenKind::Slash => "‘/’",
            TokenKind::And => "‘&&’",
            TokenKind::Equals => "‘=’",
            TokenKind::LParen => "‘(’",
            TokenKind::RParen => "‘)’",
            TokenKind::LBrace => "‘{’",
            TokenKind::RBrace => "‘}’",
            TokenKind::Comment => "comment",
            TokenKind::Error => "an unrecognized token",
        };
        proof {
            reveal_strlit("whitespace");
            reveal_strlit("‘def’");
            reveal_strlit("‘val’");
            reveal_strlit("identifier");
            reveal_strlit("number");
            reveal_strlit("‘+’");
            reveal_strlit("‘-’");
            reveal_strlit("‘*’");
            reveal_strlit("‘/’");
            reveal_strlit("‘&&’");
            reveal_strlit("‘=’");
            reveal_strlit("‘(’");
            reveal_strlit("‘)’");
            reveal_strlit("‘{’");
            reveal_strlit("‘}’");
            reveal_strlit("comment");
            reveal_strlit("an unrecognized token");
        }
        s
    }
}

} // verus!
