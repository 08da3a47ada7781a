//! Lexical analysis for Nature language
use vstd::prelude::*;
use vstd::string::*;
use crate::error::{CompilerError, Location, Result};
use crate::text::concat3;

pub mod token;

use token::{Token, TokenKind, TokenWithLocation, keyword_kind, keyword_of, token_of_kind, unit_kind, operator_text};

verus! {

broadcast use vstd::string::group_string_axioms;

/// The characters of a string, in order.
pub fn chars_of(s: &str) -> (res: Vec<char>)
    ensures
        res@ == s@,
{
    let mut v: Vec<char> = Vec::new();
    for c in it: s.chars()
        invariant
            v@ == it.seq().take(it.index() as int),
            it.seq() == s@,
    {
        v.push(c);
        assert(v@ =~= it.seq().take(it.index() + 1));
    }
    assert(v@ =~= s@);
    v
}


// ---------------------------------------------------------------------------
// The token grammar, over the characters of the source.
// ---------------------------------------------------------------------------

/// `[a-zA-Z_]`
pub open spec fn is_ident_start(c: char) -> bool {
    ('a' <= c && c <= 'z') || ('A' <= c && c <= 'Z') || c == '_'
}

/// `[0-9]`
pub open spec fn is_digit(c: char) -> bool {
    '0' <= c && c <= '9'
}

/// `[a-zA-Z0-9_]`
pub open spec fn is_ident_char(c: char) -> bool {
    is_ident_start(c) || is_digit(c)
}

/// Space, tab, newline or carriage return: what the tokenizer skips between tokens.
pub open spec fn is_trivia_space(c: char) -> bool {
    c == ' ' || c == '\t' || c == '\n' || c == '\r'
}

/// The Unicode `White_Space` characters, which the lexer skips before a token.
pub open spec fn is_unicode_whitespace(c: char) -> bool {
    c == '\t' || c == '\n' || c == '\x0B' || c == '\x0C' || c == '\r' || c == ' '
        || c == '\u{85}' || c == '\u{A0}' || c == '\u{1680}'
        || ('\u{2000}' <= c && c <= '\u{200A}')
        || c == '\u{2028}' || c == '\u{2029}' || c == '\u{202F}' || c == '\u{205F}'
        || c == '\u{3000}'
}

/// End of the run of identifier characters starting at `j`.
pub open spec fn ident_end(s: Seq<char>, j: int) -> int
    decreases s.len() - j,
{
    if 0 <= j < s.len() && is_ident_char(s[j]) { ident_end(s, j + 1) } else { j }
}

/// End of the run of digits starting at `j`.
pub open spec fn digits_end(s: Seq<char>, j: int) -> int
    decreases s.len() - j,
{
    if 0 <= j < s.len() && is_digit(s[j]) { digits_end(s, j + 1) } else { j }
}

/// End of a `//` comment whose text starts at `j`: the next newline, or the end of input.
pub open spec fn line_comment_end(s: Seq<char>, j: int) -> int
    decreases s.len() - j,
{
    if 0 <= j < s.len() && s[j] != '\n' { line_comment_end(s, j + 1) } else { j }
}

/// End of a `/* ... */` comment whose text starts at `j`, if it is closed. Inside, a `*` not
/// followed by `/` is taken together with the next character.
pub open spec fn block_comment_end(s: Seq<char>, j: int) -> Option<int>
    decreases s.len() - j,
{
    if j < 0 || j >= s.len() {
        None
    } else if s[j] == '*' {
        if j + 1 >= s.len() {
            None
        } else if s[j + 1] == '/' {
            Some(j + 2)
        } else {
            block_comment_end(s, j + 2)
        }
    } else {
        block_comment_end(s, j + 1)
    }
}

/// End of a string literal whose text starts at `j` (after the opening quote), if it is
/// closed; a backslash escapes the next character unless that is a newline.
pub open spec fn string_end(s: Seq<char>, j: int) -> Option<int>
    decreases s.len() - j,
{
    if j < 0 || j >= s.len() {
        None
    } else if s[j] == '"' {
        Some(j + 1)
    } else if s[j] == '\\' {
        if j + 1 < s.len() && s[j + 1] != '\n' { string_end(s, j + 2) } else { None }
    } else {
        string_end(s, j + 1)
    }
}

/// A line comment ends between its start and the end of input.
pub proof fn lemma_line_comment_end_bounds(s: Seq<char>, j: int)
    requires
        0 <= j <= s.len(),
    ensures
        j <= line_comment_end(s, j) <= s.len(),
    decreases s.len() - j,
{
    if j < s.len() && s[j] != '\n' {
        lemma_line_comment_end_bounds(s, j + 1);
    }
}

/// A closed block comment ends after its start and within the input.
pub proof fn lemma_block_comment_end_bounds(s: Seq<char>, j: int)
    ensures
        block_comment_end(s, j) matches Some(e) ==> j < e <= s.len(),
    decreases s.len() - j,
{
    if 0 <= j < s.len() {
        if s[j] == '*' {
            if j + 1 < s.len() && s[j + 1] != '/' {
                lemma_block_comment_end_bounds(s, j + 2);
            }
        } else {
            lemma_block_comment_end_bounds(s, j + 1);
        }
    }
}

/// First position at or after `j` where no space or comment starts.
pub open spec fn skip_trivia(s: Seq<char>, j: int) -> int
    decreases s.len() - j,
{
    if j < 0 || j >= s.len() {
        j
    } else if is_trivia_space(s[j]) {
        skip_trivia(s, j + 1)
    } else if s[j] == '/' && j + 1 < s.len() && s[j + 1] == '/' {
        proof {
            lemma_line_comment_end_bounds(s, j + 2);
        }
        skip_trivia(s, line_comment_end(s, j + 2))
    } else if s[j] == '/' && j + 1 < s.len() && s[j + 1] == '*' && block_comment_end(s, j + 2) is Some {
        proof {
            lemma_block_comment_end_bounds(s, j + 2);
        }
        skip_trivia(s, block_comment_end(s, j + 2)->0)
    } else {
        j
    }
}

/// The character at `j`, or none past the end.
pub open spec fn char_at(s: Seq<char>, j: int) -> Option<char> {
    if 0 <= j < s.len() { Some(s[j]) } else { None }
}

/// The longest operator or delimiter starting at `j`, with its length.
pub open spec fn operator_at(s: Seq<char>, j: int) -> Option<(TokenKind, int)> {
    let c = s[j];
    let n = char_at(s, j + 1);
    let n2 = char_at(s, j + 2);
    if c == '+' {
        if n == Some('=') { Some((TokenKind::PlusAssign, 2)) } else { Some((TokenKind::Plus, 1)) }
    } else if c == '-' {
        if n == Some('=') { Some((TokenKind::MinusAssign, 2)) }
        else if n == Some('>') { Some((TokenKind::Arrow, 2)) }
        else { Some((TokenKind::Minus, 1)) }
    } else if c == '*' {
        if n == Some('=') { Some((TokenKind::StarAssign, 2)) } else { Some((TokenKind::Star, 1)) }
    } else if c == '/' {
        if n == Some('=') { Some((TokenKind::SlashAssign, 2)) } else { Some((TokenKind::Slash, 1)) }
    } else if c == '%' {
        if n == Some('=') { Some((TokenKind::PercentAssign, 2)) } else { Some((TokenKind::Percent, 1)) }
    } else if c == '&' {
        if n == Some('&') { Some((TokenKind::LogicalAnd, 2)) }
        else if n == Some('=') { Some((TokenKind::AmpersandAssign, 2)) }
        else { Some((TokenKind::Ampersand, 1)) }
    } else if c == '|' {
        if n == Some('|') { Some((TokenKind::LogicalOr, 2)) }
        else if n == Some('=') { Some((TokenKind::PipeAssign, 2)) }
        else { Some((TokenKind::Pipe, 1)) }
    } else if c == '^' {
        if n == Some('=') { Some((TokenKind::CaretAssign, 2)) } else { Some((TokenKind::Caret, 1)) }
    } else if c == '~' {
        Some((TokenKind::Tilde, 1))
    } else if c == '<' {
        if n == Some('<') {
            if n2 == Some('=') { Some((TokenKind::LeftShiftAssign, 3)) } else { Some((TokenKind::LeftShift, 2)) }
        } else if n == Some('=') { Some((TokenKind::LessEqual, 2)) }
        else { Some((TokenKind::Less, 1)) }
    } else if c == '>' {
        if n == Some('>') {
            if n2 == Some('=') { Some((TokenKind::RightShiftAssign, 3)) } else { Some((TokenKind::RightShift, 2)) }
        } else if n == Some('=') { Some((TokenKind::GreaterEqual, 2)) }
        else { Some((TokenKind::Greater, 1)) }
    } else if c == '!' {
        if n == Some('=') { Some((TokenKind::NotEqual, 2)) } else { Some((TokenKind::Not, 1)) }
    } else if c == '=' {
        if n == Some('=') { Some((TokenKind::Equal, 2)) } else { Some((TokenKind::Assign, 1)) }
    } else if c == ':' {
        if n == Some(':') { Some((TokenKind::ColonColon, 2)) } else { Some((TokenKind::Colon, 1)) }
    } else if c == '(' { Some((TokenKind::LeftParen, 1)) }
    else if c == ')' { Some((TokenKind::RightParen, 1)) }
    else if c == '[' { Some((TokenKind::LeftBracket, 1)) }
    else if c == ']' { Some((TokenKind::RightBracket, 1)) }
    else if c == '{' { Some((TokenKind::LeftBrace, 1)) }
    else if c == '}' { Some((TokenKind::RightBrace, 1)) }
    else if c == ',' { Some((TokenKind::Comma, 1)) }
    else if c == ';' { Some((TokenKind::Semicolon, 1)) }
    else if c == '.' { Some((TokenKind::Dot, 1)) }
    else if c == '?' { Some((TokenKind::Question, 1)) }
    else if c == '`' { Some((TokenKind::Backtick, 1)) }
    else if c == '@' { Some((TokenKind::At, 1)) }
    else { None }
}

/// An operator or delimiter is read as the token whose source text it is: the characters
/// at `j` that the token covers spell that kind's text.
pub proof fn lemma_operator_text(s: Seq<char>, j: int)
    requires
        0 <= j < s.len(),
    ensures
        operator_at(s, j) matches Some((k, n)) ==> (operator_text(k) matches Some(t)
            && t.len() == n && j + n <= s.len() && s.subrange(j, j + n) == t),
{
    if let Some((k, n)) = operator_at(s, j) {
        let t = operator_text(k)->0;
        assert(operator_text(k) is Some);
        assert(j + n <= s.len());
        assert(s.subrange(j, j + n) =~= t);
    }
}

/// Two operator or delimiter kinds with the same source text are the same kind, so the text
/// an operator is read from determines its token.
pub proof fn lemma_operator_text_unique(k1: TokenKind, k2: TokenKind)
    requires
        operator_text(k1) is Some,
        operator_text(k1) == operator_text(k2),
    ensures
        k1 == k2,
{
    let t = operator_text(k1)->0;
    assert(t.len() >= 1);
    if t.len() >= 2 {
        assert(t[1] == operator_text(k2)->0[1]);
    }
    if t.len() == 3 {
        assert(t[2] == operator_text(k2)->0[2]);
    }
    assert(t[0] == operator_text(k2)->0[0]);
}

/// The token that starts at `j` (where no space or comment starts), by longest match, with
/// the position just after it; none where no token matches.
pub open spec fn scan_token(s: Seq<char>, j: int) -> Option<(TokenKind, int)> {
    if j < 0 || j >= s.len() {
        None
    } else {
        let c = s[j];
        if is_ident_start(c) {
            let e = ident_end(s, j + 1);
            match keyword_kind(s.subrange(j, e)) {
                Some(k) => Some((k, e)),
                None => Some((TokenKind::Identifier, e)),
            }
        } else if is_digit(c) {
            let e = digits_end(s, j + 1);
            if e + 1 < s.len() && s[e] == '.' && is_digit(s[e + 1]) {
                Some((TokenKind::Float, digits_end(s, e + 2)))
            } else {
                Some((TokenKind::Integer, e))
            }
        } else if c == '"' {
            match string_end(s, j + 1) {
                Some(e) => Some((TokenKind::String, e)),
                None => None,
            }
        } else if c == '\'' {
            if j + 2 < s.len() && s[j + 1] != '\'' && s[j + 1] != '\\' && s[j + 2] == '\'' {
                Some((TokenKind::Char, j + 3))
            } else if j + 3 < s.len() && s[j + 1] == '\\' && s[j + 2] != '\n' && s[j + 3] == '\'' {
                Some((TokenKind::Char, j + 4))
            } else {
                None
            }
        } else {
            match operator_at(s, j) {
                Some((k, n)) => Some((k, j + n)),
                None => None,
            }
        }
    }
}

/// The value of a run of decimal digits.
pub open spec fn digits_value(d: Seq<char>) -> nat
    decreases d.len(),
{
    if d.len() == 0 {
        0
    } else {
        digits_value(d.drop_last()) * 10 + ((d.last() as int - '0' as int) as nat)
    }
}

/// The value of an integer literal: its digits' value, or 0 when that does not fit in `i64`.
pub open spec fn integer_literal_value(d: Seq<char>) -> int {
    if digits_value(d) <= i64::MAX { digits_value(d) as int } else { 0 }
}

/// The token `tok` is the one the text `s[j..e]` lexes to as a token of variant `k`.
pub open spec fn denotes(tok: Token, k: TokenKind, s: Seq<char>, j: int, e: int) -> bool {
    &&& tok.spec_kind() == k
    &&& match tok {
        Token::Identifier(x) => x@ == s.subrange(j, e),
        Token::Float(x) => x@ == s.subrange(j, e),
        Token::String(x) => x@ == s.subrange(j + 1, e - 1),
        Token::Integer(n) => n as int == integer_literal_value(s.subrange(j, e)),
        Token::Char(c) => c == s[j + 1],
        _ => true,
    }
}

/// Position, line and column after the whitespace the lexer skips before a token; `\r\n`
/// counts as one line break, and so does a lone `\r`.
pub open spec fn skip_ws(s: Seq<char>, pos: int, line: int, col: int) -> (int, int, int)
    decreases s.len() - pos,
{
    if 0 <= pos < s.len() && is_unicode_whitespace(s[pos]) {
        if s[pos] == '\n' {
            skip_ws(s, pos + 1, line + 1, 1)
        } else if s[pos] == '\r' {
            if pos + 1 < s.len() && s[pos + 1] == '\n' {
                skip_ws(s, pos + 2, line + 1, 1)
            } else {
                skip_ws(s, pos + 1, line + 1, 1)
            }
        } else {
            skip_ws(s, pos + 1, line, col + 1)
        }
    } else {
        (pos, line, col)
    }
}

/// Line and column after reading `s[from..to]`: a newline starts a new line, a carriage
/// return counts for nothing, any other character moves one column.
pub open spec fn advance_lc(s: Seq<char>, from: int, to: int, line: int, col: int) -> (int, int)
    decreases to - from,
{
    if from >= to || from < 0 || from >= s.len() {
        (line, col)
    } else if s[from] == '\n' {
        advance_lc(s, from + 1, to, line + 1, 1)
    } else if s[from] == '\r' {
        advance_lc(s, from + 1, to, line, col)
    } else {
        advance_lc(s, from + 1, to, line, col + 1)
    }
}

/// What the lexer finds next from a position, line and column.
pub enum LexStep {
    /// No more tokens; the lexer rests at this position, line and column.
    End { pos: int, line: int, col: int },
    /// A token of variant `kind` written at `s[start..end]`, reported at `line`, `col` and
    /// `offset`; the lexer then moves to `end`, `next_line`, `next_col`.
    Found {
        kind: TokenKind,
        start: int,
        end: int,
        line: int,
        col: int,
        offset: int,
        next_line: int,
        next_col: int,
    },
    /// No token matches at the character at `pos`, reported at `line`, `col`; the lexer rests
    /// there.
    Fail { pos: int, line: int, col: int },
}

/// The next step of lexing `s` from a position, line and column: skip whitespace, then
/// comments, then take the longest token. A token is reported where the whitespace ends.
pub open spec fn lex_step(s: Seq<char>, pos: int, line: int, col: int) -> LexStep {
    if pos >= s.len() {
        LexStep::End { pos, line, col }
    } else {
        let (p1, l1, c1) = skip_ws(s, pos, line, col);
        if p1 >= s.len() {
            LexStep::End { pos: p1, line: l1, col: c1 }
        } else {
            let j = skip_trivia(s, p1);
            if j >= s.len() {
                LexStep::End { pos: p1, line: l1, col: c1 }
            } else {
                match scan_token(s, j) {
                    Some((k, e)) => {
                        let (l2, c2) = advance_lc(s, p1, e, l1, c1);
                        LexStep::Found {
                            kind: k,
                            start: j,
                            end: e,
                            line: l1,
                            col: c1,
                            offset: p1,
                            next_line: l2,
                            next_col: c2,
                        }
                    },
                    None => LexStep::Fail { pos: p1, line: l1, col: c1 },
                }
            }
        }
    }
}

/// The message of a lexical error at character `c`.
pub open spec fn unexpected_char_message(c: char) -> Seq<char> {
    "Unexpected character: '"@ + seq![c] + "'"@
}

// ---------------------------------------------------------------------------
// Facts about the grammar's functions.
// ---------------------------------------------------------------------------

proof fn lemma_ident_end_bounds(s: Seq<char>, j: int)
    requires
        0 <= j <= s.len(),
    ensures
        j <= ident_end(s, j) <= s.len(),
        forall|k: int| j <= k < ident_end(s, j) ==> is_ident_char(#[trigger] s[k]),
    decreases s.len() - j,
{
    if j < s.len() && is_ident_char(s[j]) {
        lemma_ident_end_bounds(s, j + 1);
    }
}

proof fn lemma_digits_end_bounds(s: Seq<char>, j: int)
    requires
        0 <= j <= s.len(),
    ensures
        j <= digits_end(s, j) <= s.len(),
        forall|k: int| j <= k < digits_end(s, j) ==> is_digit(#[trigger] s[k]),
    decreases s.len() - j,
{
    if j < s.len() && is_digit(s[j]) {
        lemma_digits_end_bounds(s, j + 1);
    }
}

proof fn lemma_string_end_bounds(s: Seq<char>, j: int)
    ensures
        string_end(s, j) matches Some(e) ==> j < e <= s.len(),
    decreases s.len() - j,
{
    if 0 <= j < s.len() && s[j] != '"' {
        if s[j] == '\\' {
            if j + 1 < s.len() && s[j + 1] != '\n' {
                lemma_string_end_bounds(s, j + 2);
            }
        } else {
            lemma_string_end_bounds(s, j + 1);
        }
    }
}

proof fn lemma_skip_trivia_bounds(s: Seq<char>, j: int)
    requires
        0 <= j <= s.len(),
    ensures
        j <= skip_trivia(s, j) <= s.len(),
    decreases s.len() - j,
{
    if j < s.len() {
        if is_trivia_space(s[j]) {
            lemma_skip_trivia_bounds(s, j + 1);
        } else if s[j] == '/' && j + 1 < s.len() && s[j + 1] == '/' {
            lemma_line_comment_end_bounds(s, j + 2);
            lemma_skip_trivia_bounds(s, line_comment_end(s, j + 2));
        } else if s[j] == '/' && j + 1 < s.len() && s[j + 1] == '*' && block_comment_end(s, j + 2) is Some {
            lemma_block_comment_end_bounds(s, j + 2);
            lemma_skip_trivia_bounds(s, block_comment_end(s, j + 2)->0);
        }
    }
}

/// A token found by `scan_token` is not empty and lies within the input.
pub proof fn lemma_scan_token_bounds(s: Seq<char>, j: int)
    ensures
        scan_token(s, j) matches Some((k, e)) ==> j < e <= s.len(),
{
    if 0 <= j < s.len() {
        let c = s[j];
        if is_ident_start(c) {
            lemma_ident_end_bounds(s, j + 1);
        } else if is_digit(c) {
            lemma_digits_end_bounds(s, j + 1);
            let e = digits_end(s, j + 1);
            if e + 1 < s.len() && s[e] == '.' && is_digit(s[e + 1]) {
                lemma_digits_end_bounds(s, e + 2);
            }
        } else if c == '"' {
            lemma_string_end_bounds(s, j + 1);
        }
    }
}

proof fn lemma_skip_ws_bounds(s: Seq<char>, pos: int, line: int, col: int)
    requires
        0 <= pos <= s.len(),
        line >= 1,
        col >= 1,
    ensures
        ({
            let (p, l, c) = skip_ws(s, pos, line, col);
            &&& pos <= p <= s.len()
            &&& l >= 1 && c >= 1
            &&& l + c - p <= line + col - pos
        }),
    decreases s.len() - pos,
{
    if pos < s.len() && is_unicode_whitespace(s[pos]) {
        if s[pos] == '\n' {
            lemma_skip_ws_bounds(s, pos + 1, line + 1, 1);
        } else if s[pos] == '\r' {
            if pos + 1 < s.len() && s[pos + 1] == '\n' {
                lemma_skip_ws_bounds(s, pos + 2, line + 1, 1);
            } else {
                lemma_skip_ws_bounds(s, pos + 1, line + 1, 1);
            }
        } else {
            lemma_skip_ws_bounds(s, pos + 1, line, col + 1);
        }
    }
}

proof fn lemma_advance_lc_bounds(s: Seq<char>, from: int, to: int, line: int, col: int)
    requires
        0 <= from <= to <= s.len(),
        line >= 1,
        col >= 1,
    ensures
        ({
            let (l, c) = advance_lc(s, from, to, line, col);
            &&& l >= 1 && c >= 1
            &&& l + c - to <= line + col - from
        }),
    decreases to - from,
{
    if from < to {
        if s[from] == '\n' {
            lemma_advance_lc_bounds(s, from + 1, to, line + 1, 1);
        } else if s[from] == '\r' {
            lemma_advance_lc_bounds(s, from + 1, to, line, col);
        } else {
            lemma_advance_lc_bounds(s, from + 1, to, line, col + 1);
        }
    }
}

// ---------------------------------------------------------------------------
// The lexer.
// ---------------------------------------------------------------------------

/// Lexical analyzer for Nature language
pub struct Lexer {
    /// Source code to analyze
    source: String,
    /// The characters of the source
    chars: Vec<char>,
    /// Current position in source (a character index)
    position: usize,
    /// Current line number
    line: usize,
    /// Current column number
    column: usize,
    /// Token buffer for lookahead
    buffer: Vec<TokenWithLocation>,
}

impl Lexer {
    /// The characters being lexed.
    pub closed spec fn text(&self) -> Seq<char> {
        self.chars@
    }

    /// Current position, line and column.
    pub closed spec fn pos(&self) -> int {
        self.position as int
    }

    /// Current line.
    pub closed spec fn cur_line(&self) -> int {
        self.line as int
    }

    /// Current column.
    pub closed spec fn cur_col(&self) -> int {
        self.column as int
    }

    /// Tokens read ahead by a peek and not yet handed out.
    pub closed spec fn buffered(&self) -> Seq<TokenWithLocation> {
        self.buffer@
    }

    /// The lexer's invariant.
    pub closed spec fn wf(&self) -> bool {
        &&& self.chars@ == self.source@
        &&& self.position <= self.chars@.len()
        &&& self.line >= 1
        &&& self.column >= 1
        &&& self.line + self.column <= self.position + 2
        &&& self.chars@.len() + 2 <= usize::MAX
    }

    /// Create a new lexer for the given source code
    pub fn new(source: String) -> (res: Self)
        requires
            source@.len() + 2 <= usize::MAX,
        ensures
            res.wf(),
            res.text() == source@,
            res.pos() == 0,
            res.cur_line() == 1,
            res.cur_col() == 1,
            res.buffered().len() == 0,
    {
        let chars = chars_of(source.as_str());
        Lexer { source, chars, position: 0, line: 1, column: 1, buffer: Vec::new() }
    }

    /// Get current position information
    pub fn position(&self) -> (res: Location)
        ensures
            res.line == self.cur_line(),
            res.column == self.cur_col(),
            res.offset == self.pos(),
    {
        Location::new(self.line, self.column, self.position)
    }

    /// Reset the lexer to the beginning
    pub fn reset(&mut self)
        requires
            old(self).wf(),
        ensures
            final(self).wf(),
            final(self).text() == old(self).text(),
            final(self).pos() == 0,
            final(self).cur_line() == 1,
            final(self).cur_col() == 1,
            final(self).buffered().len() == 0,
    {
        self.position = 0;
        self.line = 1;
        self.column = 1;
        self.buffer = Vec::new();
    }

    /// Skip whitespace characters and update position
    fn skip_whitespace(&mut self)
        requires
            old(self).wf(),
        ensures
            final(self).wf(),
            final(self).chars == old(self).chars,
            final(self).source == old(self).source,
            final(self).buffer == old(self).buffer,
            (final(self).position as int, final(self).line as int, final(self).column as int)
                == skip_ws(old(self).chars@, old(self).position as int, old(self).line as int, old(self).column as int),
    {
        let ghost s = self.chars@;
        let ghost goal = skip_ws(s, self.position as int, self.line as int, self.column as int);
        while self.position < self.chars.len() && is_whitespace(self.chars[self.position])
            invariant
                self.wf(),
                self.chars@ == s,
                self.chars == old(self).chars,
                self.source == old(self).source,
                self.buffer == old(self).buffer,
                skip_ws(s, self.position as int, self.line as int, self.column as int) == goal,
            decreases self.chars@.len() - self.position,
        {
            let ch = self.chars[self.position];
            if ch == '\n' {
                self.line = self.line + 1;
                self.column = 1;
            } else if ch == '\r' {
                if self.position + 1 < self.chars.len() && self.chars[self.position + 1] == '\n' {
                    self.position = self.position + 1;
                }
                self.line = self.line + 1;
                self.column = 1;
            } else {
                self.column = self.column + 1;
            }
            self.position = self.position + 1;
        }
    }

    /// Update position based on the source text from the current position to `end`
    fn update_position_from_source(&mut self, end: usize)
        requires
            old(self).wf(),
            old(self).position <= end <= old(self).chars@.len(),
        ensures
            final(self).wf(),
            final(self).chars == old(self).chars,
            final(self).source == old(self).source,
            final(self).buffer == old(self).buffer,
            final(self).position == end,
            (final(self).line as int, final(self).column as int)
                == advance_lc(old(self).chars@, old(self).position as int, end as int, old(self).line as int, old(self).column as int),
    {
        let ghost s = self.chars@;
        let ghost goal = advance_lc(s, self.position as int, end as int, self.line as int, self.column as int);
        while self.position < end
            invariant
                self.wf(),
                self.position <= end <= s.len(),
                self.chars@ == s,
                self.chars == old(self).chars,
                self.source == old(self).source,
                self.buffer == old(self).buffer,
                advance_lc(s, self.position as int, end as int, self.line as int, self.column as int) == goal,
            decreases end - self.position,
        {
            let ch = self.chars[self.position];
            if ch == '\n' {
                self.line = self.line + 1;
                self.column = 1;
            } else if ch == '\r' {
            } else {
                self.column = self.column + 1;
            }
            self.position = self.position + 1;
        }
    }

    /// Get the next token from the source
    pub fn next_token(&mut self) -> (res: Result<Option<TokenWithLocation>>)
        requires
            old(self).wf(),
        ensures
            final(self).wf(),
            final(self).text() == old(self).text(),
            old(self).buffered().len() > 0 ==> {
                &&& res == Ok::<Option<TokenWithLocation>, CompilerError>(Some(old(self).buffered()[0]))
                &&& final(self).buffered() == old(self).buffered().drop_first()
                &&& final(self).pos() == old(self).pos()
                &&& final(self).cur_line() == old(self).cur_line()
                &&& final(self).cur_col() == old(self).cur_col()
            },
            old(self).buffered().len() == 0 ==> {
                &&& final(self).buffered().len() == 0
                &&& next_token_result(old(self).text(), old(self).pos(), old(self).cur_line(),
                    old(self).cur_col(), res, final(self).pos(), final(self).cur_line(), final(self).cur_col())
            },
    {
        if self.buffer.len() > 0 {
            let t = self.buffer.remove(0);
            return Ok(Some(t));
        }
        let ghost s = self.chars@;
        if self.position >= self.chars.len() {
            return Ok(None);
        }
        self.skip_whitespace();
        if self.position >= self.chars.len() {
            return Ok(None);
        }
        proof {
            lemma_skip_trivia_bounds(s, self.position as int);
        }
        let j = skip_trivia_at(&self.chars, self.position);
        if j >= self.chars.len() {
            return Ok(None);
        }
        match scan_at(&self.chars, &self.source, j) {
            Some((token, end)) => {
                proof {
                    lemma_scan_token_bounds(s, j as int);
                    lemma_advance_lc_bounds(s, self.position as int, end as int, self.line as int, self.column as int);
                }
                let t = TokenWithLocation::new(token, self.line, self.column, self.position);
                self.update_position_from_source(end);
                Ok(Some(t))
            },
            None => {
                let c = self.source.as_str().substring_char(self.position, self.position + 1);
                let msg = concat3("Unexpected character: '", c, "'");
                proof {
                    assert(c@ =~= seq![s[self.position as int]]);
                }
                Err(CompilerError::lexical(self.line, self.column, msg.as_str()))
            },
        }
    }

    /// Peek at the next token without consuming it
    pub fn peek_token(&mut self) -> (res: Result<Option<&TokenWithLocation>>)
        requires
            old(self).wf(),
        ensures
            final(self).wf(),
            final(self).text() == old(self).text(),
            res matches Ok(Some(t)) ==> final(self).buffered().len() > 0 && *t == final(self).buffered()[0],
            res matches Ok(None) ==> final(self).buffered().len() == 0,
            old(self).buffered().len() > 0 ==> {
                &&& res matches Ok(Some(t)) && *t == old(self).buffered()[0]
                &&& final(self).buffered() == old(self).buffered()
                &&& final(self).pos() == old(self).pos()
                &&& final(self).cur_line() == old(self).cur_line()
                &&& final(self).cur_col() == old(self).cur_col()
            },
            old(self).buffered().len() == 0 ==> {
                &&& final(self).buffered().len() <= 1
                &&& res is Ok ==> next_token_result(old(self).text(), old(self).pos(), old(self).cur_line(),
                    old(self).cur_col(),
                    Ok(if final(self).buffered().len() > 0 { Some(final(self).buffered()[0]) } else { None }),
                    final(self).pos(), final(self).cur_line(), final(self).cur_col())
                &&& res matches Err(e) ==> next_token_result(old(self).text(), old(self).pos(), old(self).cur_line(),
                    old(self).cur_col(), Err(e), final(self).pos(), final(self).cur_line(), final(self).cur_col())
            },
    {
        if self.buffer.len() == 0 {
            match self.next_token() {
                Ok(Some(token)) => {
                    self.buffer.push(token);
                },
                Ok(None) => {},
                Err(e) => {
                    return Err(e);
                },
            }
        }
        if self.buffer.len() > 0 {
            Ok(Some(&self.buffer[0]))
        } else {
            Ok(None)
        }
    }

    /// Peek at the next n tokens
    pub fn peek_tokens(&mut self, n: usize) -> (res: Result<Vec<&TokenWithLocation>>)
        requires
            old(self).wf(),
        ensures
            final(self).wf(),
            final(self).text() == old(self).text(),
            res matches Ok(v) ==> v@.len() <= n && v@.len() <= final(self).buffered().len()
                && forall|i: int| 0 <= i < v@.len() ==> *v@[i] == final(self).buffered()[i],
    {
        while self.buffer.len() < n
            invariant
                self.wf(),
                self.text() == old(self).text(),
            decreases self.chars@.len() - self.position, n - self.buffer@.len(),
        {
            let ghost before = self.position;
            let mut probe = Lexer {
                source: self.source.clone(),
                chars: self.chars.clone(),
                position: self.position,
                line: self.line,
                column: self.column,
                buffer: Vec::new(),
            };
            proof {
                assert(probe.chars@ == self.chars@);
            }
            match probe.next_token() {
                Ok(Some(token)) => {
                    proof {
                        lemma_step_advances(self.chars@, self.position as int, self.line as int, self.column as int, Ok(Some(token)),
                            probe.position as int, probe.line as int, probe.column as int);
                    }
                    self.position = probe.position;
                    self.line = probe.line;
                    self.column = probe.column;
                    self.buffer.push(token);
                },
                Ok(None) => {
                    break;
                },
                Err(e) => {
                    return Err(e);
                },
            }
        }
        let mut res: Vec<&TokenWithLocation> = Vec::new();
        let mut i: usize = 0;
        while i < n && i < self.buffer.len()
            invariant
                i <= self.buffer@.len(),
                res@.len() == i,
                i <= n,
                forall|k: int| 0 <= k < i ==> *res@[k] == self.buffer@[k],
            decreases self.buffer@.len() - i,
        {
            res.push(&self.buffer[i]);
            i = i + 1;
        }
        Ok(res)
    }

    /// Hand out the tokens read ahead, then lex to the end of input or to the first error.
    pub fn lex_all(&mut self) -> (res: (Vec<TokenWithLocation>, Option<CompilerError>))
        requires
            old(self).wf(),
        ensures
            final(self).wf(),
            final(self).text() == old(self).text(),
            final(self).buffered().len() == 0,
            res.0@.len() >= old(self).buffered().len(),
            res.0@.take(old(self).buffered().len() as int) == old(self).buffered(),
            lexes(old(self).text(), old(self).pos(), old(self).cur_line(), old(self).cur_col(),
                res.0@.skip(old(self).buffered().len() as int), res.1),
    {
        let ghost s = self.chars@;
        let ghost p0 = self.position as int;
        let ghost l0 = self.line as int;
        let ghost c0 = self.column as int;
        let mut out: Vec<TokenWithLocation> = Vec::new();
        let ghost b = self.buffer@;
        let mut i: usize = 0;
        while i < self.buffer.len()
            invariant
                self.buffer@ == b,
                i <= b.len(),
                out@ == b.take(i as int),
            decreases b.len() - i,
        {
            let t = self.buffer[i].clone();
            out.push(t);
            assert(out@ =~= b.take(i + 1));
            i = i + 1;
        }
        self.buffer = Vec::new();
        assert(out@ =~= b);
        assert(out@.skip(b.len() as int) =~= Seq::<TokenWithLocation>::empty());
        loop
            invariant
                self.wf(),
                self.chars@ == s,
                s == old(self).chars@,
                b == old(self).buffer@,
                p0 == old(self).position,
                l0 == old(self).line,
                c0 == old(self).column,
                self.buffer@.len() == 0,
                p0 <= self.position,
                out@.len() >= b.len(),
                out@.take(b.len() as int) == b,
                lex_steps(s, p0, l0, c0, out@.skip(b.len() as int), self.position as int,
                    self.line as int, self.column as int),
            decreases s.len() - self.position,
        {
            let ghost before = out@;
            let ghost (pp, pl, pc) = (self.position as int, self.line as int, self.column as int);
            match self.next_token() {
                Ok(Some(t)) => {
                    proof {
                        lemma_step_advances(s, pp, pl, pc, Ok(Some(t)), self.position as int,
                            self.line as int, self.column as int);
                        lemma_lex_steps_push(s, p0, l0, c0, before.skip(b.len() as int), pp, pl, pc, t,
                            self.position as int, self.line as int, self.column as int);
                    }
                    out.push(t);
                    proof {
                        assert(out@.skip(b.len() as int) =~= before.skip(b.len() as int).push(t));
                        assert(out@.take(b.len() as int) =~= before.take(b.len() as int));
                    }
                },
                Ok(None) => {
                    proof {
                        assert(lexes(s, pp, pl, pc, Seq::<TokenWithLocation>::empty(), None));
                        lemma_lex_steps_then_lexes(s, p0, l0, c0, out@.skip(b.len() as int), pp, pl, pc,
                            Seq::<TokenWithLocation>::empty(), None);
                        assert(out@.skip(b.len() as int) + Seq::<TokenWithLocation>::empty()
                            =~= out@.skip(b.len() as int));
                    }
                    return (out, None);
                },
                Err(e) => {
                    proof {
                        assert(lexes(s, pp, pl, pc, Seq::<TokenWithLocation>::empty(), Some(e)));
                        lemma_lex_steps_then_lexes(s, p0, l0, c0, out@.skip(b.len() as int), pp, pl, pc,
                            Seq::<TokenWithLocation>::empty(), Some(e));
                        assert(out@.skip(b.len() as int) + Seq::<TokenWithLocation>::empty()
                            =~= out@.skip(b.len() as int));
                    }
                    return (out, Some(e));
                },
            }
        }
    }

    /// All the tokens of the source, in order, or the first lexical error.
    pub fn tokenize(&mut self) -> (res: Result<Vec<TokenWithLocation>>)
        requires
            old(self).wf(),
        ensures
            final(self).wf(),
            old(self).buffered().len() == 0 ==> (match res {
                Ok(v) => lexes(old(self).text(), old(self).pos(), old(self).cur_line(), old(self).cur_col(),
                    v@, None),
                Err(e) => exists|toks: Seq<TokenWithLocation>| lexes(old(self).text(), old(self).pos(),
                    old(self).cur_line(), old(self).cur_col(), toks, Some(e)),
            }),
    {
        let (toks, err) = self.lex_all();
        proof {
            assert(toks@.skip(old(self).buffered().len() as int) == toks@.skip(0) ==> true);
            if old(self).buffered().len() == 0 {
                assert(toks@.skip(0) =~= toks@);
            }
        }
        match err {
            None => Ok(toks),
            Some(e) => Err(e),
        }
    }
}

/// A stream of bare tokens over a text, which skips a character it cannot lex.
pub struct TokenStream {
    lexer: Lexer,
}

impl Token {
    /// A stream of the tokens of `source`.
    pub fn lexer(source: &str) -> (res: TokenStream)
        requires
            source@.len() + 2 <= usize::MAX,
        ensures
            res.wf(),
            res.text() == source@,
            res.pos() == 0,
            res.cur_line() == 1,
            res.cur_col() == 1,
    {
        TokenStream { lexer: Lexer::new(String::from_str(source)) }
    }
}

impl TokenStream {
    /// The text of the stream.
    pub closed spec fn text(&self) -> Seq<char> {
        self.lexer.text()
    }

    /// Where the stream stands.
    pub closed spec fn pos(&self) -> int {
        self.lexer.pos()
    }

    /// The line where the stream stands.
    pub closed spec fn cur_line(&self) -> int {
        self.lexer.cur_line()
    }

    /// The column where the stream stands.
    pub closed spec fn cur_col(&self) -> int {
        self.lexer.cur_col()
    }

    /// The stream's invariant.
    pub closed spec fn wf(&self) -> bool {
        self.lexer.wf() && self.lexer.buffered().len() == 0
    }

    /// The next token: none at the end of input, an error for a character that starts no
    /// token, which is then skipped.
    pub fn next(&mut self) -> (res: Option<std::result::Result<Token, ()>>)
        requires
            old(self).wf(),
        ensures
            final(self).wf(),
            final(self).text() == old(self).text(),
            match lex_step(old(self).text(), old(self).pos(), old(self).cur_line(), old(self).cur_col()) {
                LexStep::End { .. } => res is None,
                LexStep::Found { kind, start, end, next_line, next_col, .. } => {
                    &&& res matches Some(Ok(t))
                    &&& denotes(t, kind, old(self).text(), start, end)
                    &&& final(self).pos() == end
                    &&& final(self).cur_line() == next_line
                    &&& final(self).cur_col() == next_col
                },
                LexStep::Fail { pos, line, col } => {
                    &&& res == Some(std::result::Result::<Token, ()>::Err(()))
                    &&& final(self).pos() == pos + 1
                    &&& final(self).cur_line() == line
                    &&& final(self).cur_col() == col + 1
                },
            },
    {
        let ghost s = self.lexer.chars@;
        let ghost (p0, l0, c0) = (self.lexer.position as int, self.lexer.line as int, self.lexer.column as int);
        match self.lexer.next_token() {
            Ok(Some(t)) => Some(Ok(t.token)),
            Ok(None) => None,
            Err(_) => {
                proof {
                    lemma_skip_ws_bounds(s, p0, l0, c0);
                }
                self.lexer.position = self.lexer.position + 1;
                self.lexer.column = self.lexer.column + 1;
                Some(Err(()))
            },
        }
    }
}

/// What `next_token` hands out, with an empty lookahead buffer, from position `pos` at `line`
/// and `col`, and where the lexer is afterwards.
pub open spec fn next_token_result(
    s: Seq<char>,
    pos: int,
    line: int,
    col: int,
    res: Result<Option<TokenWithLocation>>,
    new_pos: int,
    new_line: int,
    new_col: int,
) -> bool {
    match lex_step(s, pos, line, col) {
        LexStep::End { pos: p, line: l, col: c } => {
            &&& res matches Ok(None)
            &&& new_pos == p && new_line == l && new_col == c
        },
        LexStep::Found { kind, start, end, line: l, col: c, offset, next_line, next_col } => {
            &&& res matches Ok(Some(t))
            &&& denotes(t.token, kind, s, start, end)
            &&& t.line == l && t.column == c && t.offset == offset
            &&& new_pos == end && new_line == next_line && new_col == next_col
        },
        LexStep::Fail { pos: p, line: l, col: c } => {
            &&& res matches Err(CompilerError::Lexical { line: el, column: ec, message })
            &&& el == l && ec == c && message@ == unexpected_char_message(s[p])
            &&& new_pos == p && new_line == l && new_col == c
        },
    }
}

/// Lexing `s` from a position, line and column hands out the tokens `toks`, in order, and
/// then stops: at the end of input when `err` is none, at a lexical error `err` otherwise.
pub open spec fn lexes(
    s: Seq<char>,
    pos: int,
    line: int,
    col: int,
    toks: Seq<TokenWithLocation>,
    err: Option<CompilerError>,
) -> bool
    decreases toks.len(),
{
    match lex_step(s, pos, line, col) {
        LexStep::End { .. } => toks.len() == 0 && err is None,
        LexStep::Fail { pos: p, line: l, col: c } => {
            &&& toks.len() == 0
            &&& err matches Some(CompilerError::Lexical { line: el, column: ec, message })
            &&& el == l && ec == c && message@ == unexpected_char_message(s[p])
        },
        LexStep::Found { kind, start, end, line: l, col: c, offset, next_line, next_col } => {
            &&& toks.len() > 0
            &&& denotes(toks[0].token, kind, s, start, end)
            &&& toks[0].line == l && toks[0].column == c && toks[0].offset == offset
            &&& lexes(s, end, next_line, next_col, toks.drop_first(), err)
        },
    }
}

/// Lexing a text from one place comes to the same number of tokens and the same kind of
/// stop, whichever run is looked at.
pub proof fn lemma_lexes_same_outcome(
    s: Seq<char>,
    pos: int,
    line: int,
    col: int,
    t1: Seq<TokenWithLocation>,
    e1: Option<CompilerError>,
    t2: Seq<TokenWithLocation>,
    e2: Option<CompilerError>,
)
    requires
        lexes(s, pos, line, col, t1, e1),
        lexes(s, pos, line, col, t2, e2),
    ensures
        t1.len() == t2.len(),
        e1 is None <==> e2 is None,
    decreases t1.len(),
{
    match lex_step(s, pos, line, col) {
        LexStep::Found { kind, start, end, line: l, col: c, offset, next_line, next_col } => {
            lemma_lexes_same_outcome(s, end, next_line, next_col, t1.drop_first(), e1, t2.drop_first(), e2);
        },
        _ => {},
    }
}

/// Lexing `s` from one position, line and column hands out the tokens `toks` and arrives at
/// another.
pub open spec fn lex_steps(
    s: Seq<char>,
    pos: int,
    line: int,
    col: int,
    toks: Seq<TokenWithLocation>,
    pos2: int,
    line2: int,
    col2: int,
) -> bool
    decreases toks.len(),
{
    if toks.len() == 0 {
        pos == pos2 && line == line2 && col == col2
    } else {
        match lex_step(s, pos, line, col) {
            LexStep::Found { kind, start, end, line: l, col: c, offset, next_line, next_col } => {
                &&& denotes(toks[0].token, kind, s, start, end)
                &&& toks[0].line == l && toks[0].column == c && toks[0].offset == offset
                &&& lex_steps(s, end, next_line, next_col, toks.drop_first(), pos2, line2, col2)
            },
            _ => false,
        }
    }
}

proof fn lemma_lex_steps_push(
    s: Seq<char>,
    pos: int,
    line: int,
    col: int,
    toks: Seq<TokenWithLocation>,
    pos2: int,
    line2: int,
    col2: int,
    t: TokenWithLocation,
    pos3: int,
    line3: int,
    col3: int,
)
    requires
        lex_steps(s, pos, line, col, toks, pos2, line2, col2),
        next_token_result(s, pos2, line2, col2, Ok(Some(t)), pos3, line3, col3),
    ensures
        lex_steps(s, pos, line, col, toks.push(t), pos3, line3, col3),
    decreases toks.len(),
{
    reveal_with_fuel(lex_steps, 2);
    if toks.len() == 0 {
        assert(toks.push(t).drop_first() =~= Seq::<TokenWithLocation>::empty());
    } else {
        match lex_step(s, pos, line, col) {
            LexStep::Found { kind, start, end, line: l, col: c, offset, next_line, next_col } => {
                lemma_lex_steps_push(s, end, next_line, next_col, toks.drop_first(), pos2, line2, col2,
                    t, pos3, line3, col3);
                assert(toks.push(t).drop_first() =~= toks.drop_first().push(t));
            },
            _ => {},
        }
    }
}

proof fn lemma_lex_steps_then_lexes(
    s: Seq<char>,
    pos: int,
    line: int,
    col: int,
    toks: Seq<TokenWithLocation>,
    pos2: int,
    line2: int,
    col2: int,
    rest: Seq<TokenWithLocation>,
    err: Option<CompilerError>,
)
    requires
        lex_steps(s, pos, line, col, toks, pos2, line2, col2),
        lexes(s, pos2, line2, col2, rest, err),
    ensures
        lexes(s, pos, line, col, toks + rest, err),
    decreases toks.len(),
{
    if toks.len() == 0 {
        assert(toks + rest =~= rest);
    } else {
        match lex_step(s, pos, line, col) {
            LexStep::Found { kind, start, end, line: l, col: c, offset, next_line, next_col } => {
                lemma_lex_steps_then_lexes(s, end, next_line, next_col, toks.drop_first(), pos2, line2,
                    col2, rest, err);
                assert((toks + rest).drop_first() =~= toks.drop_first() + rest);
            },
            _ => {},
        }
    }
}

/// A token handed out moves the lexer strictly forward.
pub proof fn lemma_step_advances(
    s: Seq<char>,
    pos: int,
    line: int,
    col: int,
    res: Result<Option<TokenWithLocation>>,
    new_pos: int,
    new_line: int,
    new_col: int,
)
    requires
        0 <= pos <= s.len(),
        next_token_result(s, pos, line, col, res, new_pos, new_line, new_col),
    ensures
        res matches Ok(Some(_)) ==> pos < new_pos <= s.len(),
{
    if pos < s.len() {
        lemma_skip_ws_bounds_any(s, pos, line, col);
        let (p1, l1, c1) = skip_ws(s, pos, line, col);
        if p1 < s.len() {
            lemma_skip_trivia_bounds(s, p1);
            lemma_scan_token_bounds(s, skip_trivia(s, p1));
        }
    }
}

proof fn lemma_skip_ws_bounds_any(s: Seq<char>, pos: int, line: int, col: int)
    requires
        0 <= pos <= s.len(),
    ensures
        pos <= skip_ws(s, pos, line, col).0 <= s.len(),
    decreases s.len() - pos,
{
    if pos < s.len() && is_unicode_whitespace(s[pos]) {
        if s[pos] == '\n' {
            lemma_skip_ws_bounds_any(s, pos + 1, line + 1, 1);
        } else if s[pos] == '\r' {
            if pos + 1 < s.len() && s[pos + 1] == '\n' {
                lemma_skip_ws_bounds_any(s, pos + 2, line + 1, 1);
            } else {
                lemma_skip_ws_bounds_any(s, pos + 1, line + 1, 1);
            }
        } else {
            lemma_skip_ws_bounds_any(s, pos + 1, line, col + 1);
        }
    }
}

/// Whether a character is Unicode white space.
pub fn is_whitespace(c: char) -> (res: bool)
    ensures
        res == is_unicode_whitespace(c),
{
    c == '\t' || c == '\n' || c == '\x0B' || c == '\x0C' || c == '\r' || c == ' '
        || c == '\u{85}' || c == '\u{A0}' || c == '\u{1680}'
        || ('\u{2000}' <= c && c <= '\u{200A}')
        || c == '\u{2028}' || c == '\u{2029}' || c == '\u{202F}' || c == '\u{205F}'
        || c == '\u{3000}'
}

fn is_ident_start_char(c: char) -> (res: bool)
    ensures
        res == is_ident_start(c),
{
    ('a' <= c && c <= 'z') || ('A' <= c && c <= 'Z') || c == '_'
}

fn is_digit_char(c: char) -> (res: bool)
    ensures
        res == is_digit(c),
{
    '0' <= c && c <= '9'
}

fn ident_end_at(chars: &Vec<char>, j: usize) -> (res: usize)
    requires
        j <= chars@.len(),
    ensures
        res == ident_end(chars@, j as int),
{
    let mut k = j;
    while k < chars.len() && (is_ident_start_char(chars[k]) || is_digit_char(chars[k]))
        invariant
            j <= k <= chars@.len(),
            ident_end(chars@, k as int) == ident_end(chars@, j as int),
        decreases chars@.len() - k,
    {
        k = k + 1;
    }
    k
}

fn digits_end_at(chars: &Vec<char>, j: usize) -> (res: usize)
    requires
        j <= chars@.len(),
    ensures
        res == digits_end(chars@, j as int),
{
    let mut k = j;
    while k < chars.len() && is_digit_char(chars[k])
        invariant
            j <= k <= chars@.len(),
            digits_end(chars@, k as int) == digits_end(chars@, j as int),
        decreases chars@.len() - k,
    {
        k = k + 1;
    }
    k
}

fn line_comment_end_at(chars: &Vec<char>, j: usize) -> (res: usize)
    requires
        j <= chars@.len(),
    ensures
        res == line_comment_end(chars@, j as int),
{
    let mut k = j;
    while k < chars.len() && chars[k] != '\n'
        invariant
            j <= k <= chars@.len(),
            line_comment_end(chars@, k as int) == line_comment_end(chars@, j as int),
        decreases chars@.len() - k,
    {
        k = k + 1;
    }
    k
}

fn block_comment_end_at(chars: &Vec<char>, j: usize) -> (res: Option<usize>)
    requires
        j <= chars@.len(),
    ensures
        res matches Some(e) ==> block_comment_end(chars@, j as int) == Some(e as int),
        res is None ==> block_comment_end(chars@, j as int) is None,
{
    let mut k = j;
    loop
        invariant
            j <= k <= chars@.len(),
            block_comment_end(chars@, k as int) == block_comment_end(chars@, j as int),
        decreases chars@.len() - k,
    {
        if k >= chars.len() {
            return None;
        }
        if chars[k] == '*' {
            if k + 1 >= chars.len() {
                return None;
            }
            if chars[k + 1] == '/' {
                return Some(k + 2);
            }
            k = k + 2;
        } else {
            k = k + 1;
        }
    }
}

fn string_end_at(chars: &Vec<char>, j: usize) -> (res: Option<usize>)
    requires
        j <= chars@.len(),
    ensures
        res matches Some(e) ==> string_end(chars@, j as int) == Some(e as int),
        res is None ==> string_end(chars@, j as int) is None,
{
    let mut k = j;
    loop
        invariant
            j <= k <= chars@.len(),
            string_end(chars@, k as int) == string_end(chars@, j as int),
        decreases chars@.len() - k,
    {
        if k >= chars.len() {
            return None;
        }
        if chars[k] == '"' {
            return Some(k + 1);
        }
        if chars[k] == '\\' {
            if k + 1 < chars.len() && chars[k + 1] != '\n' {
                k = k + 2;
            } else {
                return None;
            }
        } else {
            k = k + 1;
        }
    }
}

fn skip_trivia_at(chars: &Vec<char>, j: usize) -> (res: usize)
    requires
        j <= chars@.len(),
    ensures
        res == skip_trivia(chars@, j as int),
{
    let ghost s = chars@;
    let mut k = j;
    loop
        invariant
            j <= k <= s.len(),
            s == chars@,
            skip_trivia(s, k as int) == skip_trivia(s, j as int),
        decreases s.len() - k,
    {
        if k >= chars.len() {
            return k;
        }
        let c = chars[k];
        if c == ' ' || c == '\t' || c == '\n' || c == '\r' {
            k = k + 1;
        } else if c == '/' && k + 1 < chars.len() && chars[k + 1] == '/' {
            proof {
                lemma_line_comment_end_bounds(s, k + 2);
            }
            k = line_comment_end_at(chars, k + 2);
        } else if c == '/' && k + 1 < chars.len() && chars[k + 1] == '*' {
            match block_comment_end_at(chars, k + 2) {
                Some(e) => {
                    proof {
                        lemma_block_comment_end_bounds(s, k + 2);
                    }
                    k = e;
                },
                None => {
                    return k;
                },
            }
        } else {
            return k;
        }
    }
}

proof fn lemma_digits_value_step(d: Seq<char>, c: char)
    ensures
        digits_value(d.push(c)) == digits_value(d) * 10 + ((c as int - '0' as int) as nat),
{
    assert(d.push(c).drop_last() =~= d);
}

fn parse_integer_at(chars: &Vec<char>, j: usize, e: usize) -> (res: i64)
    requires
        j <= e <= chars@.len(),
        forall|k: int| j <= k < e ==> is_digit(#[trigger] chars@[k]),
    ensures
        res as int == integer_literal_value(chars@.subrange(j as int, e as int)),
{
    let mut acc: u64 = 0;
    let mut big = false;
    let mut k = j;
    assert(chars@.subrange(j as int, j as int) =~= Seq::<char>::empty());
    while k < e
        invariant
            j <= k <= e <= chars@.len(),
            forall|m: int| j <= m < e ==> is_digit(#[trigger] chars@[m]),
            !big ==> acc as nat == digits_value(chars@.subrange(j as int, k as int)) && acc <= i64::MAX,
            big ==> digits_value(chars@.subrange(j as int, k as int)) > i64::MAX,
        decreases e - k,
    {
        let c = chars[k];
        let d = (c as u32 - '0' as u32) as u64;
        proof {
            assert(is_digit(chars@[k as int]));
            assert(chars@.subrange(j as int, k + 1) =~= chars@.subrange(j as int, k as int).push(c));
            lemma_digits_value_step(chars@.subrange(j as int, k as int), c);
        }
        if !big {
            if acc > (9223372036854775807u64 - d) / 10 {
                big = true;
                proof {
                    assert(acc * 10 + d > 9223372036854775807u64) by (nonlinear_arith)
                        requires
                            acc > (9223372036854775807u64 - d) / 10,
                            d <= 9;
                }
            } else {
                proof {
                    assert(acc * 10 + d <= 9223372036854775807u64) by (nonlinear_arith)
                        requires
                            acc <= (9223372036854775807u64 - d) / 10,
                            d <= 9;
                }
                acc = acc * 10 + d;
            }
        } else {
            proof {
                let v = digits_value(chars@.subrange(j as int, k as int));
                assert(v * 10 + d >= v) by (nonlinear_arith)
                    requires
                        v >= 0,
                        d >= 0;
            }
        }
        k = k + 1;
    }
    if big { 0 } else { acc as i64 }
}

/// The token starting at `j` (where no space or comment starts), with its end.
fn scan_at(chars: &Vec<char>, source: &String, j: usize) -> (res: Option<(Token, usize)>)
    requires
        j < chars@.len(),
        chars@.len() + 2 <= usize::MAX,
        chars@ == source@,
    ensures
        res matches Some((t, e)) ==> scan_token(chars@, j as int) == Some((t.spec_kind(), e as int))
            && denotes(t, t.spec_kind(), chars@, j as int, e as int),
        res is None ==> scan_token(chars@, j as int) is None,
{
    let ghost s = chars@;
    let c = chars[j];
    if is_ident_start_char(c) {
        let e = ident_end_at(chars, j + 1);
        proof {
            lemma_ident_end_bounds(s, j + 1);
        }
        let word = source.as_str().substring_char(j, e);
        match keyword_of(word) {
            Some(k) => {
                proof {
                    assert(keyword_kind(s.subrange(j as int, e as int)) == Some(k));
                    assert(unit_kind(k)) by {
                        reveal_keywords(s.subrange(j as int, e as int));
                    }
                }
                Some((token_of_kind(k), e))
            },
            None => Some((Token::Identifier(String::from_str(word)), e)),
        }
    } else if is_digit_char(c) {
        let e = digits_end_at(chars, j + 1);
        proof {
            lemma_digits_end_bounds(s, j + 1);
        }
        if e + 1 < chars.len() && chars[e] == '.' && is_digit_char(chars[e + 1]) {
            let e2 = digits_end_at(chars, e + 2);
            proof {
                lemma_digits_end_bounds(s, e + 2);
            }
            let text = source.as_str().substring_char(j, e2);
            Some((Token::Float(String::from_str(text)), e2))
        } else {
            let n = parse_integer_at(chars, j, e);
            Some((Token::Integer(n), e))
        }
    } else if c == '"' {
        match string_end_at(chars, j + 1) {
            Some(e) => {
                proof {
                    lemma_string_end_bounds(s, j + 1);
                }
                let text = source.as_str().substring_char(j + 1, e - 1);
                Some((Token::String(String::from_str(text)), e))
            },
            None => None,
        }
    } else if c == '\'' {
        if j + 2 < chars.len() && chars[j + 1] != '\'' && chars[j + 1] != '\\' && chars[j + 2] == '\'' {
            Some((Token::Char(chars[j + 1]), j + 3))
        } else if j + 3 < chars.len() && chars[j + 1] == '\\' && chars[j + 2] != '\n' && chars[j + 3] == '\'' {
            Some((Token::Char(chars[j + 1]), j + 4))
        } else {
            None
        }
    } else {
        match operator_token(chars, j) {
            Some((k, n)) => Some((token_of_kind(k), j + n)),
            None => None,
        }
    }
}

proof fn reveal_keywords(word: Seq<char>)
    ensures
        keyword_kind(word) matches Some(k) ==> unit_kind(k),
{
}

/// The longest operator or delimiter at `j`.
fn operator_token(chars: &Vec<char>, j: usize) -> (res: Option<(TokenKind, usize)>)
    requires
        j < chars@.len(),
        chars@.len() + 2 <= usize::MAX,
    ensures
        res matches Some((k, n)) ==> operator_at(chars@, j as int) == Some((k, n as int)) && unit_kind(k) && 1 <= n <= 3,
        res is None ==> operator_at(chars@, j as int) is None,
{
    let c = chars[j];
    let n: Option<char> = if j + 1 < chars.len() { Some(chars[j + 1]) } else { None };
    let n2: Option<char> = if j + 2 < chars.len() { Some(chars[j + 2]) } else { None };
    let r: Option<(TokenKind, usize)> = if c == '+' {
        if n == Some('=') { Some((TokenKind::PlusAssign, 2)) } else { Some((TokenKind::Plus, 1)) }
    } else if c == '-' {
        if n == Some('=') { Some((TokenKind::MinusAssign, 2)) }
        else if n == Some('>') { Some((TokenKind::Arrow, 2)) }
        else { Some((TokenKind::Minus, 1)) }
    } else if c == '*' {
        if n == Some('=') { Some((TokenKind::StarAssign, 2)) } else { Some((TokenKind::Star, 1)) }
    } else if c == '/' {
        if n == Some('=') { Some((TokenKind::SlashAssign, 2)) } else { Some((TokenKind::Slash, 1)) }
    } else if c == '%' {
        if n == Some('=') { Some((TokenKind::PercentAssign, 2)) } else { Some((TokenKind::Percent, 1)) }
    } else if c == '&' {
        if n == Some('&') { Some((TokenKind::LogicalAnd, 2)) }
        else if n == Some('=') { Some((TokenKind::AmpersandAssign, 2)) }
        else { Some((TokenKind::Ampersand, 1)) }
    } else if c == '|' {
        if n == Some('|') { Some((TokenKind::LogicalOr, 2)) }
        else if n == Some('=') { Some((TokenKind::PipeAssign, 2)) }
        else { Some((TokenKind::Pipe, 1)) }
    } else if c == '^' {
        if n == Some('=') { Some((TokenKind::CaretAssign, 2)) } else { Some((TokenKind::Caret, 1)) }
    } else if c == '~' {
        Some((TokenKind::Tilde, 1))
    } else if c == '<' {
        if n == Some('<') {
            if n2 == Some('=') { Some((TokenKind::LeftShiftAssign, 3)) } else { Some((TokenKind::LeftShift, 2)) }
        } else if n == Some('=') { Some((TokenKind::LessEqual, 2)) }
        else { Some((TokenKind::Less, 1)) }
    } else if c == '>' {
        if n == Some('>') {
            if n2 == Some('=') { Some((TokenKind::RightShiftAssign, 3)) } else { Some((TokenKind::RightShift, 2)) }
        } else if n == Some('=') { Some((TokenKind::GreaterEqual, 2)) }
        else { Some((TokenKind::Greater, 1)) }
    } else if c == '!' {
        if n == Some('=') { Some((TokenKind::NotEqual, 2)) } else { Some((TokenKind::Not, 1)) }
    } else if c == '=' {
        if n == Some('=') { Some((TokenKind::Equal, 2)) } else { Some((TokenKind::Assign, 1)) }
    } else if c == ':' {
        if n == Some(':') { Some((TokenKind::ColonColon, 2)) } else { Some((TokenKind::Colon, 1)) }
    } else if c == '(' { Some((TokenKind::LeftParen, 1)) }
    else if c == ')' { Some((TokenKind::RightParen, 1)) }
    else if c == '[' { Some((TokenKind::LeftBracket, 1)) }
    else if c == ']' { Some((TokenKind::RightBracket, 1)) }
    else if c == '{' { Some((TokenKind::LeftBrace, 1)) }
    else if c == '}' { Some((TokenKind::RightBrace, 1)) }
    else if c == ',' { Some((TokenKind::Comma, 1)) }
    else if c == ';' { Some((TokenKind::Semicolon, 1)) }
    else if c == '.' { Some((TokenKind::Dot, 1)) }
    else if c == '?' { Some((TokenKind::Question, 1)) }
    else if c == '`' { Some((TokenKind::Backtick, 1)) }
    else if c == '@' { Some((TokenKind::At, 1)) }
    else { None };
    r
}

} // verus!
