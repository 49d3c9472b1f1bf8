//! Maximal-munch lexer for the scripting language's token grammar.

use vstd::prelude::*;

use crate::token_kind::TokenKind;

verus! {

/// A space or newline.
pub open spec fn is_space_char(c: char) -> bool {
    c == ' ' || c == '\n'
}

/// An ASCII letter.
pub open spec fn is_alpha_char(c: char) -> bool {
    ('a' as u32 <= c as u32 && c as u32 <= 'z' as u32) || ('A' as u32 <= c as u32 && c as u32
        <= 'Z' as u32)
}

/// An ASCII decimal digit.
pub open spec fn is_digit_char(c: char) -> bool {
    '0' as u32 <= c as u32 && c as u32 <= '9' as u32
}

/// A letter or digit: what may continue an identifier.
pub open spec fn is_word_char(c: char) -> bool {
    is_alpha_char(c) || is_digit_char(c)
}

/// Length of the maximal run of spaces and newlines starting at `i`.
pub open spec fn space_run(s: Seq<char>, i: int) -> int
    decreases s.len() - i when 0 <= i <= s.len()
{
    if i >= s.len() || !is_space_char(s[i]) {
        0
    } else {
        1 + space_run(s, i + 1)
    }
}

/// Length of the maximal run of letters and digits starting at `i`.
pub open spec fn word_run(s: Seq<char>, i: int) -> int
    decreases s.len() - i when 0 <= i <= s.len()
{
    if i >= s.len() || !is_word_char(s[i]) {
        0
    } else {
        1 + word_run(s, i + 1)
    }
}

/// Length of the maximal run of digits starting at `i`.
pub open spec fn digit_run(s: Seq<char>, i: int) -> int
    decreases s.len() - i when 0 <= i <= s.len()
{
    if i >= s.len() || !is_digit_char(s[i]) {
        0
    } else {
        1 + digit_run(s, i + 1)
    }
}

/// Length of the maximal run of characters other than a newline
/// starting at `i`: the body of a line comment.
pub open spec fn line_run(s: Seq<char>, i: int) -> int
    decreases s.len() - i when 0 <= i <= s.len()
{
    if i >= s.len() || s[i] == '\n' {
        0
    } else {
        1 + line_run(s, i + 1)
    }
}

/// How many characters the token starting at `i` spans, by maximal
/// munch; every token spans at least one character.
pub open spec fn spec_token_len(s: Seq<char>, i: int) -> int
    recommends
        0 <= i < s.len(),
{
    let c = s[i];
    if is_space_char(c) {
        space_run(s, i)
    } else if is_alpha_char(c) {
        word_run(s, i)
    } else if is_digit_char(c) {
        let d = digit_run(s, i);
        if i + d < s.len() && s[i + d] == 'L' {
            d + 1
        } else {
            d
        }
    } else if c == '/' && i + 1 < s.len() && s[i + 1] == '/' {
        line_run(s, i)
    } else if c == '&' && i + 1 < s.len() && s[i + 1] == '&' {
        2
    } else {
        1
    }
}

/// The kind of the token starting at `i`.
pub open spec fn spec_token_kind(s: Seq<char>, i: int) -> TokenKind
    recommends
        0 <= i < s.len(),
{
    let c = s[i];
    if is_space_char(c) {
        TokenKind::Whitespace
    } else if is_alpha_char(c) {
        let w = s.subrange(i, i + word_run(s, i));
        if w == seq!['d', 'e', 'f'] {
            TokenKind::FnKw
        } else if w == seq!['v', 'a', 'l'] {
            TokenKind::ValKw
        } else {
            TokenKind::Ident
        }
    } else if is_digit_char(c) {
        let d = digit_run(s, i);
        if i + d < s.len() && s[i + d] == 'L' {
            TokenKind::LongNumber
        } else {
            TokenKind::IntNumber
        }
    } else if c == '/' && i + 1 < s.len() && s[i + 1] == '/' {
        TokenKind::Comment
    } else if c == '/' {
        TokenKind::Slash
    } else if c == '&' && i + 1 < s.len() && s[i + 1] == '&' {
        TokenKind::And
    } else if c == '+' {
        TokenKind::Plus
    } else if c == '-' {
        TokenKind::Minus
    } else if c == '*' {
        TokenKind::Star
    } else if c == '=' {
        TokenKind::Equals
    } else if c == '(' {
        TokenKind::LParen
    } else if c == ')' {
        TokenKind::RParen
    } else if c == '{' {
        TokenKind::LBrace
    } else if c == '}' {
        TokenKind::RBrace
    } else {
        TokenKind::Error
    }
}

/// One lexed token: its kind and the exact slice of input it spans.
pub struct Token<'a> {
    /// The classification of the token.
    pub kind: TokenKind,
    /// The characters the token spans, verbatim.
    pub text: &'a str,
}

/// A cursor over the input that hands out one token per call.
pub struct Lexer<'a> {
    input: &'a str,
    pos: usize,
}

/// A run of `is_space_char` characters up to an end that is no such
/// character has exactly the run's length.
proof fn lemma_space_run(s: Seq<char>, i: int, j: int)
    requires
        0 <= i <= j <= s.len(),
        forall|k: int| i <= k < j ==> is_space_char(#[trigger] s[k]),
        j == s.len() || !is_space_char(s[j as int]),
    ensures
        space_run(s, i) == j - i,
    decreases j - i,
{
    if i < j {
        lemma_space_run(s, i + 1, j);
    }
}

/// The same counting fact for letter-and-digit runs.
proof fn lemma_word_run(s: Seq<char>, i: int, j: int)
    requires
        0 <= i <= j <= s.len(),
        forall|k: int| i <= k < j ==> is_word_char(#[trigger] s[k]),
        j == s.len() || !is_word_char(s[j as int]),
    ensures
        word_run(s, i) == j - i,
    decreases j - i,
{
    if i < j {
        lemma_word_run(s, i + 1, j);
    }
}

/// The same counting fact for digit runs.
proof fn lemma_digit_run(s: Seq<char>, i: int, j: int)
    requires
        0 <= i <= j <= s.len(),
        forall|k: int| i <= k < j ==> is_digit_char(#[trigger] s[k]),
        j == s.len() || !is_digit_char(s[j as int]),
    ensures
        digit_run(s, i) == j - i,
    decreases j - i,
{
    if i < j {
        lemma_digit_run(s, i + 1, j);
    }
}

/// The same counting fact for comment bodies.
proof fn lemma_line_run(s: Seq<char>, i: int, j: int)
    requires
        0 <= i <= j <= s.len(),
        forall|k: int| i <= k < j ==> #[trigger] s[k] != '\n',
        j == s.len() || s[j as int] == '\n',
    ensures
        line_run(s, i) == j - i,
    decreases j - i,
{
    if i < j {
        lemma_line_run(s, i + 1, j);
    }
}

impl<'a> Lexer<'a> {
    /// The input being lexed.
    pub closed spec fn spec_input(&self) -> Seq<char> {
        self.input@
    }

    /// How far lexing has advanced.
    pub closed spec fn spec_pos(&self) -> int {
        self.pos as int
    }

    /// The cursor never leaves the input.
    pub open spec fn wf(&self) -> bool {
        self.spec_pos() <= self.spec_input().len()
    }

    /// A lexer at the start of the input.
    pub fn new(input: &'a str) -> (r: Lexer<'a>)
        ensures
            r.wf(),
            r.spec_input() == input@,
            r.spec_pos() == 0,
    {
        Lexer { input, pos: 0 }
    }

    /// Whether a character is an ASCII letter.
    fn alpha(c: char) -> (r: bool)
        ensures
            r == is_alpha_char(c),
    {
        let u = c as u32;
        ('a' as u32 <= u && u <= 'z' as u32) || ('A' as u32 <= u && u <= 'Z' as u32)
    }

    /// Whether a character is an ASCII decimal digit.
    fn digit(c: char) -> (r: bool)
        ensures
            r == is_digit_char(c),
    {
        let u = c as u32;
        '0' as u32 <= u && u <= '9' as u32
    }

    /// The next token, or `None` at the end of the input. Each token
    /// spans at least one character, its text is exactly the slice it
    /// was read from, and consecutive calls tile the whole input.
    pub fn next(&mut self) -> (r: Option<Token<'a>>)
        requires
            old(self).wf(),
        ensures
            final(self).wf(),
            final(self).spec_input() == old(self).spec_input(),
            match r {
                Some(tok) => {
                    let s = old(self).spec_input();
                    let i = old(self).spec_pos();
                    &&& i < s.len()
                    &&& final(self).spec_pos() == i + spec_token_len(s, i)
                    &&& i < final(self).spec_pos() <= s.len()
                    &&& tok.kind == spec_token_kind(s, i)
                    &&& tok.text@ == s.subrange(i, final(self).spec_pos())
                },
                None => {
                    &&& old(self).spec_pos() == old(self).spec_input().len()
                    &&& *final(self) == *old(self)
                },
            },
    {
        let ghost s = self.input@;
        let n = self.input.unicode_len();
        let start = self.pos;
        if start >= n {
            return None;
        }
        let c = self.input.get_char(start);
        let kind: TokenKind;
        let mut end: usize = start + 1;
        if c == ' ' || c == '\n' {
            kind = TokenKind::Whitespace;
            loop
                invariant
                    start < end <= n,
                    n == s.len(),
                    self.input@ == s,
                    self.pos == start,
                    forall|k: int| start <= k < end ==> is_space_char(#[trigger] s[k]),
                ensures
                    start < end <= n,
                    forall|k: int| start <= k < end ==> is_space_char(#[trigger] s[k]),
                    end == n || !is_space_char(s[end as int]),
                decreases n - end,
            {
                if end >= n {
                    break;
                }
                let d = self.input.get_char(end);
                if !(d == ' ' || d == '\n') {
                    break;
                }
                end = end + 1;
            }
            proof {
                lemma_space_run(s, start as int, end as int);
            }
        } else if Lexer::alpha(c) {
            loop
                invariant
                    start < end <= n,
                    n == s.len(),
                    self.input@ == s,
                    self.pos == start,
                    forall|k: int| start < k < end ==> is_word_char(#[trigger] s[k]),
                ensures
                    start < end <= n,
                    forall|k: int| start < k < end ==> is_word_char(#[trigger] s[k]),
                    end == n || !is_word_char(s[end as int]),
                decreases n - end,
            {
                if end >= n {
                    break;
                }
                let d = self.input.get_char(end);
                if !(Lexer::alpha(d) || Lexer::digit(d)) {
                    break;
                }
                end = end + 1;
            }
            proof {
                lemma_word_run(s, start as int, end as int);
            }
            if end - start == 3 {
                let c1 = self.input.get_char(start + 1);
                let c2 = self.input.get_char(start + 2);
                if c == 'd' && c1 == 'e' && c2 == 'f' {
                    kind = TokenKind::FnKw;
                } else if c == 'v' && c1 == 'a' && c2 == 'l' {
                    kind = TokenKind::ValKw;
                } else {
                    kind = TokenKind::Ident;
                }
                proof {
                    let w = s.subrange(start as int, start + word_run(s, start as int));
                    assert(w.len() == 3);
                    assert(w =~= seq![s[start as int], s[start + 1], s[start + 2]]);
                    if w == seq!['d', 'e', 'f'] {
                        assert(s[start as int] == 'd' && s[start + 1] == 'e' && s[start + 2]
                            == 'f');
                    }
                    if w == seq!['v', 'a', 'l'] {
                        assert(s[start as int] == 'v' && s[start + 1] == 'a' && s[start + 2]
                            == 'l');
                    }
                }
            } else {
                kind = TokenKind::Ident;
                proof {
                    let w = s.subrange(start as int, start + word_run(s, start as int));
                    assert(w.len() != 3);
                }
            }
        } else if Lexer::digit(c) {
            loop
                invariant
                    start < end <= n,
                    n == s.len(),
                    self.input@ == s,
                    self.pos == start,
                    forall|k: int| start < k < end ==> is_digit_char(#[trigger] s[k]),
                ensures
                    start < end <= n,
                    forall|k: int| start < k < end ==> is_digit_char(#[trigger] s[k]),
                    end == n || !is_digit_char(s[end as int]),
                decreases n - end,
            {
                if end >= n {
                    break;
                }
                let d = self.input.get_char(end);
                if !Lexer::digit(d) {
                    break;
                }
                end = end + 1;
            }
            proof {
                lemma_digit_run(s, start as int, end as int);
            }
            if end < n && self.input.get_char(end) == 'L' {
                end = end + 1;
                kind = TokenKind::LongNumber;
            } else {
                kind = TokenKind::IntNumber;
            }
        } else if c == '/' && start + 1 < n && self.input.get_char(start + 1) == '/' {
            kind = TokenKind::Comment;
            loop
                invariant
                    start < end <= n,
                    n == s.len(),
                    self.input@ == s,
                    self.pos == start,
                    forall|k: int| start < k < end ==> #[trigger] s[k] != '\n',
                ensures
                    start < end <= n,
                    forall|k: int| start < k < end ==> #[trigger] s[k] != '\n',
                    end == n || s[end as int] == '\n',
                decreases n - end,
            {
                if end >= n {
                    break;
                }
                let d = self.input.get_char(end);
                if d == '\n' {
                    break;
                }
                end = end + 1;
            }
            proof {
                lemma_line_run(s, start as int, end as int);
            }
        } else if c == '/' {
            kind = TokenKind::Slash;
        } else if c == '&' && start + 1 < n && self.input.get_char(start + 1) == '&' {
            end = start + 2;
            kind = TokenKind::And;
        } else if c == '+' {
            kind = TokenKind::Plus;
        } else if c == '-' {
            kind = TokenKind::Minus;
        } else if c == '*' {
            kind = TokenKind::Star;
        } else if c == '=' {
            kind = TokenKind::Equals;
        } else if c == '(' {
            kind = TokenKind::LParen;
        } else if c == ')' {
            kind = TokenKind::RParen;
        } else if c == '{' {
            kind = TokenKind::LBrace;
        } else if c == '}' {
            kind = TokenKind::RBrace;
        } else {
            kind = TokenKind::Error;
        }
        let text = self.input.substring_char(start, end);
        self.pos = end;
        Some(Token { kind, text })
    }
}

} // verus!
