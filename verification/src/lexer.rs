use vstd::prelude::*;
use vstd::string::*;
use crate::error::{ErrRange, ParseError, ParseErrorKind};

verus! {

/// Punctuation and delimiters.
#[derive(Debug, Clone, Copy, PartialEq, Eq, Structural)]
pub enum Punct {
    Plus,
    Minus,
    Star,
    Slash,
    AndAnd,
    OrOr,
    EqEq,
    Eq,
    Lt,
    Gt,
    Bang,
    Semi,
    Colon,
    Comma,
    Arrow,
    LParen,
    RParen,
    LBrace,
    RBrace,
    LBracket,
    RBracket,
    /// Any other ASCII punctuation character; no rule of the grammar accepts it.
    Other(char),
}

/// Words that can never be identifiers.
#[derive(Debug, Clone, Copy, PartialEq, Eq, Structural)]
pub enum Keyword {
    Fn,
    Let,
    Mut,
    While,
    If,
    Else,
    True,
    False,
    /// A reserved word of Rust that this language does not use.
    Reserved,
}

#[derive(Debug)]
pub enum TokenKind {
    Ident(String),
    Keyword(Keyword),
    Int(i32),
    Str(String),
    Punct(Punct),
}

#[derive(Debug)]
pub struct Token {
    pub kind: TokenKind,
    pub span: ErrRange,
}

pub enum SpecTokenKind {
    Ident(Seq<char>),
    Keyword(Keyword),
    Int(i32),
    Str(Seq<char>),
    Punct(Punct),
}

pub struct SpecToken {
    pub kind: SpecTokenKind,
    pub span: ErrRange,
}

impl View for TokenKind {
    type V = SpecTokenKind;

    open spec fn view(&self) -> SpecTokenKind {
        match self {
            TokenKind::Ident(s) => SpecTokenKind::Ident(s@),
            TokenKind::Keyword(k) => SpecTokenKind::Keyword(*k),
            TokenKind::Int(v) => SpecTokenKind::Int(*v),
            TokenKind::Str(s) => SpecTokenKind::Str(s@),
            TokenKind::Punct(p) => SpecTokenKind::Punct(*p),
        }
    }
}

impl View for Token {
    type V = SpecToken;

    open spec fn view(&self) -> SpecToken {
        SpecToken { kind: self.kind@, span: self.span }
    }
}

pub open spec fn tokens_view(s: Seq<Token>) -> Seq<SpecToken> {
    s.map_values(|t: Token| t@)
}

// ---------------------------------------------------------------------------
// Character classes

pub open spec fn is_ws(c: char) -> bool {
    c == ' ' || c == '\t' || c == '\n' || c == '\r' || c == '\x0b' || c == '\x0c'
}

pub open spec fn is_digit(c: char) -> bool {
    '0' <= c && c <= '9'
}

pub open spec fn is_ident_start(c: char) -> bool {
    ('a' <= c && c <= 'z') || ('A' <= c && c <= 'Z') || c == '_'
}

pub open spec fn is_ident_continue(c: char) -> bool {
    is_ident_start(c) || is_digit(c)
}

// ---------------------------------------------------------------------------
// Positions

/// Line (from 1) and column (from 0) of the character at index `i`;
/// both counters stop growing at `usize::MAX`.
pub open spec fn line_col(cs: Seq<char>, i: int) -> (usize, usize)
    decreases i,
{
    if i <= 0 {
        (1, 0)
    } else {
        let (l, c) = line_col(cs, i - 1);
        if cs[i - 1] == '\n' {
            (if l < usize::MAX { (l + 1) as usize } else { l }, 0)
        } else {
            (l, if c < usize::MAX { (c + 1) as usize } else { c })
        }
    }
}

/// The range covering characters `i` up to (not including) `j`.
pub open spec fn range_of(cs: Seq<char>, i: int, j: int) -> ErrRange {
    ErrRange {
        start_line: line_col(cs, i).0,
        start_column: line_col(cs, i).1,
        end_line: line_col(cs, j).0,
        end_column: line_col(cs, j).1,
    }
}

// ---------------------------------------------------------------------------
// Scanning runs of characters

pub open spec fn ident_end(cs: Seq<char>, i: int) -> int
    decreases cs.len() - i,
{
    if 0 <= i < cs.len() && is_ident_continue(cs[i]) {
        ident_end(cs, i + 1)
    } else {
        i
    }
}

pub open spec fn number_end(cs: Seq<char>, i: int) -> int
    decreases cs.len() - i,
{
    if 0 <= i < cs.len() && (is_digit(cs[i]) || cs[i] == '_') {
        number_end(cs, i + 1)
    } else {
        i
    }
}

pub open spec fn line_end(cs: Seq<char>, i: int) -> int
    decreases cs.len() - i,
{
    if 0 <= i < cs.len() && cs[i] != '\n' {
        line_end(cs, i + 1)
    } else {
        i
    }
}

pub proof fn lemma_ident_end_bounds(cs: Seq<char>, i: int)
    requires
        0 <= i <= cs.len(),
    ensures
        i <= ident_end(cs, i) <= cs.len(),
        forall|k: int| i <= k < ident_end(cs, i) ==> is_ident_continue(#[trigger] cs[k]),
    decreases cs.len() - i,
{
    if i < cs.len() && is_ident_continue(cs[i]) {
        lemma_ident_end_bounds(cs, i + 1);
    }
}

pub proof fn lemma_number_end_bounds(cs: Seq<char>, i: int)
    requires
        0 <= i <= cs.len(),
    ensures
        i <= number_end(cs, i) <= cs.len(),
        forall|k: int| i <= k < number_end(cs, i) ==> (is_digit(#[trigger] cs[k]) || cs[k] == '_'),
    decreases cs.len() - i,
{
    if i < cs.len() && (is_digit(cs[i]) || cs[i] == '_') {
        lemma_number_end_bounds(cs, i + 1);
    }
}

pub proof fn lemma_line_end_bounds(cs: Seq<char>, i: int)
    requires
        0 <= i <= cs.len(),
    ensures
        i <= line_end(cs, i) <= cs.len(),
    decreases cs.len() - i,
{
    if i < cs.len() && cs[i] != '\n' {
        lemma_line_end_bounds(cs, i + 1);
    }
}

/// First index at or after `i` that holds neither whitespace nor part of a `//` comment.
pub open spec fn skip_trivia(cs: Seq<char>, i: int) -> int
    decreases cs.len() - i,
{
    if 0 <= i < cs.len() && is_ws(cs[i]) {
        skip_trivia(cs, i + 1)
    } else if 0 <= i && i + 1 < cs.len() && cs[i] == '/' && cs[i + 1] == '/' {
        let e = line_end(cs, i + 2);
        if i < e <= cs.len() {
            skip_trivia(cs, e)
        } else {
            i
        }
    } else {
        i
    }
}

pub proof fn lemma_skip_trivia_bounds(cs: Seq<char>, i: int)
    requires
        0 <= i <= cs.len(),
    ensures
        i <= skip_trivia(cs, i) <= cs.len(),
    decreases cs.len() - i,
{
    if i < cs.len() && is_ws(cs[i]) {
        lemma_skip_trivia_bounds(cs, i + 1);
    } else if i + 1 < cs.len() && cs[i] == '/' && cs[i + 1] == '/' {
        lemma_line_end_bounds(cs, i + 2);
        lemma_skip_trivia_bounds(cs, line_end(cs, i + 2));
    }
}

// ---------------------------------------------------------------------------
// Words

pub open spec fn is_reserved_0(w: Seq<char>) -> bool {
    ||| w == seq!['_']
    ||| w == seq!['a', 's']
    ||| w == seq!['b', 'r', 'e', 'a', 'k']
    ||| w == seq!['c', 'o', 'n', 's', 't']
    ||| w == seq!['c', 'o', 'n', 't', 'i', 'n', 'u', 'e']
    ||| w == seq!['c', 'r', 'a', 't', 'e']
    ||| w == seq!['e', 'n', 'u', 'm']
    ||| w == seq!['e', 'x', 't', 'e', 'r', 'n']
    ||| w == seq!['f', 'o', 'r']
    ||| w == seq!['i', 'm', 'p', 'l']
    ||| w == seq!['i', 'n']
}

pub open spec fn is_reserved_1(w: Seq<char>) -> bool {
    ||| w == seq!['l', 'o', 'o', 'p']
    ||| w == seq!['m', 'a', 't', 'c', 'h']
    ||| w == seq!['m', 'o', 'd']
    ||| w == seq!['m', 'o', 'v', 'e']
    ||| w == seq!['p', 'u', 'b']
    ||| w == seq!['r', 'e', 'f']
    ||| w == seq!['r', 'e', 't', 'u', 'r', 'n']
    ||| w == seq!['s', 'e', 'l', 'f']
    ||| w == seq!['S', 'e', 'l', 'f']
    ||| w == seq!['s', 't', 'a', 't', 'i', 'c']
    ||| w == seq!['s', 't', 'r', 'u', 'c', 't']
}

pub open spec fn is_reserved_2(w: Seq<char>) -> bool {
    ||| w == seq!['s', 'u', 'p', 'e', 'r']
    ||| w == seq!['t', 'r', 'a', 'i', 't']
    ||| w == seq!['t', 'y', 'p', 'e']
    ||| w == seq!['u', 'n', 's', 'a', 'f', 'e']
    ||| w == seq!['u', 's', 'e']
    ||| w == seq!['w', 'h', 'e', 'r', 'e']
    ||| w == seq!['a', 's', 'y', 'n', 'c']
    ||| w == seq!['a', 'w', 'a', 'i', 't']
    ||| w == seq!['d', 'y', 'n']
    ||| w == seq!['a', 'b', 's', 't', 'r', 'a', 'c', 't']
    ||| w == seq!['b', 'e', 'c', 'o', 'm', 'e']
}

pub open spec fn is_reserved_3(w: Seq<char>) -> bool {
    ||| w == seq!['b', 'o', 'x']
    ||| w == seq!['d', 'o']
    ||| w == seq!['f', 'i', 'n', 'a', 'l']
    ||| w == seq!['m', 'a', 'c', 'r', 'o']
    ||| w == seq!['o', 'v', 'e', 'r', 'r', 'i', 'd', 'e']
    ||| w == seq!['p', 'r', 'i', 'v']
    ||| w == seq!['t', 'y', 'p', 'e', 'o', 'f']
    ||| w == seq!['u', 'n', 's', 'i', 'z', 'e', 'd']
    ||| w == seq!['v', 'i', 'r', 't', 'u', 'a', 'l']
    ||| w == seq!['y', 'i', 'e', 'l', 'd']
    ||| w == seq!['t', 'r', 'y']
}

pub open spec fn is_reserved(w: Seq<char>) -> bool {
    ||| is_reserved_0(w)
    ||| is_reserved_1(w)
    ||| is_reserved_2(w)
    ||| is_reserved_3(w)
}

/// The token that a run of identifier characters forms.
pub open spec fn word_kind(w: Seq<char>) -> SpecTokenKind {
    if w == seq!['f', 'n'] {
        SpecTokenKind::Keyword(Keyword::Fn)
    } else if w == seq!['l', 'e', 't'] {
        SpecTokenKind::Keyword(Keyword::Let)
    } else if w == seq!['m', 'u', 't'] {
        SpecTokenKind::Keyword(Keyword::Mut)
    } else if w == seq!['w', 'h', 'i', 'l', 'e'] {
        SpecTokenKind::Keyword(Keyword::While)
    } else if w == seq!['i', 'f'] {
        SpecTokenKind::Keyword(Keyword::If)
    } else if w == seq!['e', 'l', 's', 'e'] {
        SpecTokenKind::Keyword(Keyword::Else)
    } else if w == seq!['t', 'r', 'u', 'e'] {
        SpecTokenKind::Keyword(Keyword::True)
    } else if w == seq!['f', 'a', 'l', 's', 'e'] {
        SpecTokenKind::Keyword(Keyword::False)
    } else if is_reserved(w) {
        SpecTokenKind::Keyword(Keyword::Reserved)
    } else {
        SpecTokenKind::Ident(w)
    }
}

// ---------------------------------------------------------------------------
// Literals

pub open spec fn digit_value(c: char) -> nat {
    (c as int - '0' as int) as nat
}

/// Value of a run of digits and `_` separators.
pub open spec fn digits_value(w: Seq<char>) -> nat
    decreases w.len(),
{
    if w.len() == 0 {
        0
    } else if w.last() == '_' {
        digits_value(w.drop_last())
    } else {
        digits_value(w.drop_last()) * 10 + digit_value(w.last())
    }
}

pub open spec fn escape_char(c: char) -> Option<char> {
    if c == 'n' {
        Some('\n')
    } else if c == 't' {
        Some('\t')
    } else if c == 'r' {
        Some('\r')
    } else if c == '0' {
        Some('\0')
    } else if c == '\\' {
        Some('\\')
    } else if c == '"' {
        Some('"')
    } else if c == '\'' {
        Some('\'')
    } else {
        None
    }
}

/// Scans the body of a string literal that started at `start`, from index `i` on,
/// with `acc` the characters read so far. On success gives the index after the
/// closing quote and the characters of the literal.
pub open spec fn string_body(cs: Seq<char>, start: int, i: int, acc: Seq<char>) -> Result<(int, Seq<char>), ParseError>
    decreases cs.len() - i,
{
    if i < 0 || i >= cs.len() {
        Err(ParseError { kind: ParseErrorKind::UnterminatedString, span: range_of(cs, start, cs.len() as int) })
    } else if cs[i] == '"' {
        Ok((i + 1, acc))
    } else if cs[i] == '\\' {
        if i + 1 >= cs.len() {
            Err(ParseError { kind: ParseErrorKind::UnterminatedString, span: range_of(cs, start, cs.len() as int) })
        } else {
            match escape_char(cs[i + 1]) {
                Some(c) => string_body(cs, start, i + 2, acc.push(c)),
                None => Err(ParseError { kind: ParseErrorKind::InvalidEscape, span: range_of(cs, i, i + 2) }),
            }
        }
    } else {
        string_body(cs, start, i + 1, acc.push(cs[i]))
    }
}

pub proof fn lemma_string_body_bounds(cs: Seq<char>, start: int, i: int, acc: Seq<char>)
    requires
        0 <= i <= cs.len(),
    ensures
        string_body(cs, start, i, acc) matches Ok((k, _)) ==> i < k <= cs.len(),
    decreases cs.len() - i,
{
    if i < cs.len() && cs[i] != '"' {
        if cs[i] == '\\' {
            if i + 1 < cs.len() && escape_char(cs[i + 1]) is Some {
                lemma_string_body_bounds(cs, start, i + 2, acc.push(escape_char(cs[i + 1])->0));
            }
        } else {
            lemma_string_body_bounds(cs, start, i + 1, acc.push(cs[i]));
        }
    }
}

// ---------------------------------------------------------------------------
// Punctuation

pub open spec fn punct_at(cs: Seq<char>, j: int) -> Option<(Punct, int)> {
    let c = cs[j];
    let two = j + 1 < cs.len();
    if two && c == '&' && cs[j + 1] == '&' {
        Some((Punct::AndAnd, j + 2))
    } else if two && c == '|' && cs[j + 1] == '|' {
        Some((Punct::OrOr, j + 2))
    } else if two && c == '=' && cs[j + 1] == '=' {
        Some((Punct::EqEq, j + 2))
    } else if two && c == '-' && cs[j + 1] == '>' {
        Some((Punct::Arrow, j + 2))
    } else {
        match single_punct(c) {
            Some(p) => Some((p, j + 1)),
            None => None,
        }
    }
}

pub open spec fn single_punct(c: char) -> Option<Punct> {
    if c == '+' {
        Some(Punct::Plus)
    } else if c == '-' {
        Some(Punct::Minus)
    } else if c == '*' {
        Some(Punct::Star)
    } else if c == '/' {
        Some(Punct::Slash)
    } else if c == '<' {
        Some(Punct::Lt)
    } else if c == '>' {
        Some(Punct::Gt)
    } else if c == '!' {
        Some(Punct::Bang)
    } else if c == '=' {
        Some(Punct::Eq)
    } else if c == ';' {
        Some(Punct::Semi)
    } else if c == ':' {
        Some(Punct::Colon)
    } else if c == ',' {
        Some(Punct::Comma)
    } else if c == '(' {
        Some(Punct::LParen)
    } else if c == ')' {
        Some(Punct::RParen)
    } else if c == '{' {
        Some(Punct::LBrace)
    } else if c == '}' {
        Some(Punct::RBrace)
    } else if c == '[' {
        Some(Punct::LBracket)
    } else if c == ']' {
        Some(Punct::RBracket)
    } else if c == '.' || c == '&' || c == '|' || c == '#' || c == '$' || c == '%' || c == '^'
        || c == '~' || c == '?' || c == '@' {
        Some(Punct::Other(c))
    } else {
        None
    }
}

// ---------------------------------------------------------------------------
// Tokens

/// The token starting at index `j` (which holds no whitespace) and the index after it.
pub open spec fn lex_token(cs: Seq<char>, j: int) -> Result<(SpecToken, int), ParseError> {
    let c = cs[j];
    if is_ident_start(c) {
        let k = ident_end(cs, j + 1);
        Ok((SpecToken { kind: word_kind(cs.subrange(j, k)), span: range_of(cs, j, k) }, k))
    } else if is_digit(c) {
        let k = number_end(cs, j + 1);
        let k2 = ident_end(cs, k);
        if k2 > k {
            Err(ParseError { kind: ParseErrorKind::InvalidLiteral, span: range_of(cs, j, k2) })
        } else if digits_value(cs.subrange(j, k)) > i32::MAX {
            Err(ParseError { kind: ParseErrorKind::IntTooLarge, span: range_of(cs, j, k) })
        } else {
            Ok((
                SpecToken {
                    kind: SpecTokenKind::Int(digits_value(cs.subrange(j, k)) as i32),
                    span: range_of(cs, j, k),
                },
                k,
            ))
        }
    } else if c == '"' {
        match string_body(cs, j, j + 1, seq![]) {
            Ok((k, body)) => Ok((SpecToken { kind: SpecTokenKind::Str(body), span: range_of(cs, j, k) }, k)),
            Err(e) => Err(e),
        }
    } else if c == '\'' {
        Err(ParseError { kind: ParseErrorKind::InvalidLiteral, span: range_of(cs, j, j + 1) })
    } else {
        match punct_at(cs, j) {
            Some((p, k)) => Ok((SpecToken { kind: SpecTokenKind::Punct(p), span: range_of(cs, j, k) }, k)),
            None => Err(ParseError { kind: ParseErrorKind::UnexpectedChar(c), span: range_of(cs, j, j + 1) }),
        }
    }
}

pub proof fn lemma_lex_token_bounds(cs: Seq<char>, j: int)
    requires
        0 <= j < cs.len(),
    ensures
        lex_token(cs, j) matches Ok((_, k)) ==> j < k <= cs.len(),
{
    lemma_ident_end_bounds(cs, j + 1);
    lemma_number_end_bounds(cs, j + 1);
    if j + 1 <= cs.len() {
        lemma_string_body_bounds(cs, j, j + 1, seq![]);
    }
}

/// The tokens of `cs` from index `i` on.
pub open spec fn lex_from(cs: Seq<char>, i: int) -> Result<Seq<SpecToken>, ParseError>
    decreases cs.len() - i,
{
    let j = skip_trivia(cs, i);
    if !(0 <= i <= j <= cs.len()) {
        Ok(seq![])
    } else if j == cs.len() {
        Ok(seq![])
    } else {
        match lex_token(cs, j) {
            Err(e) => Err(e),
            Ok((tok, k)) => if j < k <= cs.len() {
                match lex_from(cs, k) {
                    Ok(rest) => Ok(seq![tok] + rest),
                    Err(e) => Err(e),
                }
            } else {
                Ok(seq![])
            },
        }
    }
}

/// The tokens of a whole source text.
pub open spec fn spec_tokenize(src: Seq<char>) -> Result<Seq<SpecToken>, ParseError> {
    lex_from(src, 0)
}

// ---------------------------------------------------------------------------
// Executable lexer

/// `String::push`: appends one character to the string.
#[verifier::external_body]
pub(crate) fn push_char(s: &mut String, c: char)
    ensures
        final(s)@ == old(s)@.push(c),
{
    s.push(c);
}

fn chars_of(src: &str) -> (cs: Vec<char>)
    ensures
        cs@ == src@,
{
    let n = src.unicode_len();
    let mut cs: Vec<char> = Vec::new();
    let mut i: usize = 0;
    while i < n
        invariant
            n == src@.len(),
            i <= n,
            cs@ == src@.subrange(0, i as int),
        decreases n - i,
    {
        let c = src.get_char(i);
        cs.push(c);
        i = i + 1;
        assert(cs@ =~= src@.subrange(0, i as int));
    }
    assert(cs@ =~= src@);
    cs
}

fn line_cols(cs: &Vec<char>) -> (t: Vec<(usize, usize)>)
    ensures
        t@.len() == cs@.len() + 1,
        forall|k: int| 0 <= k <= cs@.len() ==> #[trigger] t@[k] == line_col(cs@, k),
{
    let mut t: Vec<(usize, usize)> = Vec::new();
    t.push((1, 0));
    let mut i: usize = 0;
    let mut l: usize = 1;
    let mut c: usize = 0;
    while i < cs.len()
        invariant
            i <= cs@.len(),
            t@.len() == i + 1,
            (l, c) == line_col(cs@, i as int),
            forall|k: int| 0 <= k <= i ==> #[trigger] t@[k] == line_col(cs@, k),
        decreases cs@.len() - i,
    {
        if cs[i] == '\n' {
            if l < usize::MAX {
                l = l + 1;
            }
            c = 0;
        } else {
            if c < usize::MAX {
                c = c + 1;
            }
        }
        i = i + 1;
        t.push((l, c));
    }
    t
}

fn range_at(lc: &Vec<(usize, usize)>, i: usize, j: usize, Ghost(cs): Ghost<Seq<char>>) -> (r: ErrRange)
    requires
        i <= cs.len(),
        j <= cs.len(),
        lc@.len() == cs.len() + 1,
        forall|k: int| 0 <= k <= cs.len() ==> #[trigger] lc@[k] == line_col(cs, k),
    ensures
        r == range_of(cs, i as int, j as int),
{
    let (sl, sc) = lc[i];
    let (el, ec) = lc[j];
    ErrRange { start_line: sl, start_column: sc, end_line: el, end_column: ec }
}

fn scan_ident(cs: &Vec<char>, i: usize) -> (j: usize)
    requires
        i <= cs@.len(),
    ensures
        j == ident_end(cs@, i as int),
        i <= j <= cs@.len(),
{
    let mut j = i;
    while j < cs.len() && (('a' <= cs[j] && cs[j] <= 'z') || ('A' <= cs[j] && cs[j] <= 'Z') || cs[j] == '_' || ('0' <= cs[j] && cs[j] <= '9'))
        invariant
            i <= j <= cs@.len(),
            ident_end(cs@, j as int) == ident_end(cs@, i as int),
        decreases cs@.len() - j,
    {
        j = j + 1;
    }
    j
}

fn scan_number(cs: &Vec<char>, i: usize) -> (j: usize)
    requires
        i <= cs@.len(),
    ensures
        j == number_end(cs@, i as int),
        i <= j <= cs@.len(),
{
    let mut j = i;
    while j < cs.len() && (('0' <= cs[j] && cs[j] <= '9') || cs[j] == '_')
        invariant
            i <= j <= cs@.len(),
            number_end(cs@, j as int) == number_end(cs@, i as int),
        decreases cs@.len() - j,
    {
        j = j + 1;
    }
    j
}

fn scan_line(cs: &Vec<char>, i: usize) -> (j: usize)
    requires
        i <= cs@.len(),
    ensures
        j == line_end(cs@, i as int),
        i <= j <= cs@.len(),
{
    let mut j = i;
    while j < cs.len() && cs[j] != '\n'
        invariant
            i <= j <= cs@.len(),
            line_end(cs@, j as int) == line_end(cs@, i as int),
        decreases cs@.len() - j,
    {
        j = j + 1;
    }
    j
}

fn skip_trivia_exec(cs: &Vec<char>, i: usize) -> (j: usize)
    requires
        i <= cs@.len(),
    ensures
        j == skip_trivia(cs@, i as int),
        i <= j <= cs@.len(),
{
    let mut j = i;
    loop
        invariant
            i <= j <= cs@.len(),
            skip_trivia(cs@, j as int) == skip_trivia(cs@, i as int),
        decreases cs@.len() - j,
    {
        if j < cs.len() && (cs[j] == ' ' || cs[j] == '\t' || cs[j] == '\n' || cs[j] == '\r'
            || cs[j] == '\x0b' || cs[j] == '\x0c') {
            j = j + 1;
        } else if j < cs.len() && j + 1 < cs.len() && cs[j] == '/' && cs[j + 1] == '/' {
            j = scan_line(cs, j + 2);
        } else {
            return j;
        }
    }
}

fn word_is(cs: &Vec<char>, j: usize, k: usize, w: &[char]) -> (b: bool)
    requires
        j <= k <= cs@.len(),
    ensures
        b == (cs@.subrange(j as int, k as int) == w@),
{
    if k - j != w.len() {
        return false;
    }
    let mut i: usize = 0;
    while i < w.len()
        invariant
            k - j == w@.len(),
            j <= k <= cs@.len(),
            i <= w@.len(),
            forall|m: int| 0 <= m < i ==> cs@[j + m] == w@[m],
        decreases w@.len() - i,
    {
        if cs[j + i] != w[i] {
            assert(cs@.subrange(j as int, k as int)[i as int] != w@[i as int]);
            return false;
        }
        i = i + 1;
    }
    assert(cs@.subrange(j as int, k as int) =~= w@);
    true
}

fn reserved_word_0(cs: &Vec<char>, j: usize, k: usize) -> (b: bool)
    requires
        j <= k <= cs@.len(),
    ensures
        b == is_reserved_0(cs@.subrange(j as int, k as int)),
{
    if k - j == 1 && cs[j] == '_' {
        assert(cs@.subrange(j as int, k as int) =~= seq!['_']);
        return true;
    }
    assert(cs@.subrange(j as int, k as int) != seq!['_']) by {
        if k - j == 1 {
            assert(cs@.subrange(j as int, k as int)[0] == cs@[j as int]);
        } else {
            assert(cs@.subrange(j as int, k as int).len() != seq!['_'].len());
        }
    }
    if word_is(cs, j, k, &['a', 's']) {
        return true;
    }
    if word_is(cs, j, k, &['b', 'r', 'e', 'a', 'k']) {
        return true;
    }
    if word_is(cs, j, k, &['c', 'o', 'n', 's', 't']) {
        return true;
    }
    if word_is(cs, j, k, &['c', 'o', 'n', 't', 'i', 'n', 'u', 'e']) {
        return true;
    }
    if word_is(cs, j, k, &['c', 'r', 'a', 't', 'e']) {
        return true;
    }
    if word_is(cs, j, k, &['e', 'n', 'u', 'm']) {
        return true;
    }
    if word_is(cs, j, k, &['e', 'x', 't', 'e', 'r', 'n']) {
        return true;
    }
    if word_is(cs, j, k, &['f', 'o', 'r']) {
        return true;
    }
    if word_is(cs, j, k, &['i', 'm', 'p', 'l']) {
        return true;
    }
    if word_is(cs, j, k, &['i', 'n']) {
        return true;
    }
    false
}

fn reserved_word_1(cs: &Vec<char>, j: usize, k: usize) -> (b: bool)
    requires
        j <= k <= cs@.len(),
    ensures
        b == is_reserved_1(cs@.subrange(j as int, k as int)),
{
    if word_is(cs, j, k, &['l', 'o', 'o', 'p']) {
        return true;
    }
    if word_is(cs, j, k, &['m', 'a', 't', 'c', 'h']) {
        return true;
    }
    if word_is(cs, j, k, &['m', 'o', 'd']) {
        return true;
    }
    if word_is(cs, j, k, &['m', 'o', 'v', 'e']) {
        return true;
    }
    if word_is(cs, j, k, &['p', 'u', 'b']) {
        return true;
    }
    if word_is(cs, j, k, &['r', 'e', 'f']) {
        return true;
    }
    if word_is(cs, j, k, &['r', 'e', 't', 'u', 'r', 'n']) {
        return true;
    }
    if word_is(cs, j, k, &['s', 'e', 'l', 'f']) {
        return true;
    }
    if word_is(cs, j, k, &['S', 'e', 'l', 'f']) {
        return true;
    }
    if word_is(cs, j, k, &['s', 't', 'a', 't', 'i', 'c']) {
        return true;
    }
    if word_is(cs, j, k, &['s', 't', 'r', 'u', 'c', 't']) {
        return true;
    }
    false
}

fn reserved_word_2(cs: &Vec<char>, j: usize, k: usize) -> (b: bool)
    requires
        j <= k <= cs@.len(),
    ensures
        b == is_reserved_2(cs@.subrange(j as int, k as int)),
{
    if word_is(cs, j, k, &['s', 'u', 'p', 'e', 'r']) {
        return true;
    }
    if word_is(cs, j, k, &['t', 'r', 'a', 'i', 't']) {
        return true;
    }
    if word_is(cs, j, k, &['t', 'y', 'p', 'e']) {
        return true;
    }
    if word_is(cs, j, k, &['u', 'n', 's', 'a', 'f', 'e']) {
        return true;
    }
    if word_is(cs, j, k, &['u', 's', 'e']) {
        return true;
    }
    if word_is(cs, j, k, &['w', 'h', 'e', 'r', 'e']) {
        return true;
    }
    if word_is(cs, j, k, &['a', 's', 'y', 'n', 'c']) {
        return true;
    }
    if word_is(cs, j, k, &['a', 'w', 'a', 'i', 't']) {
        return true;
    }
    if word_is(cs, j, k, &['d', 'y', 'n']) {
        return true;
    }
    if word_is(cs, j, k, &['a', 'b', 's', 't', 'r', 'a', 'c', 't']) {
        return true;
    }
    if word_is(cs, j, k, &['b', 'e', 'c', 'o', 'm', 'e']) {
        return true;
    }
    false
}

fn reserved_word_3(cs: &Vec<char>, j: usize, k: usize) -> (b: bool)
    requires
        j <= k <= cs@.len(),
    ensures
        b == is_reserved_3(cs@.subrange(j as int, k as int)),
{
    if word_is(cs, j, k, &['b', 'o', 'x']) {
        return true;
    }
    if word_is(cs, j, k, &['d', 'o']) {
        return true;
    }
    if word_is(cs, j, k, &['f', 'i', 'n', 'a', 'l']) {
        return true;
    }
    if word_is(cs, j, k, &['m', 'a', 'c', 'r', 'o']) {
        return true;
    }
    if word_is(cs, j, k, &['o', 'v', 'e', 'r', 'r', 'i', 'd', 'e']) {
        return true;
    }
    if word_is(cs, j, k, &['p', 'r', 'i', 'v']) {
        return true;
    }
    if word_is(cs, j, k, &['t', 'y', 'p', 'e', 'o', 'f']) {
        return true;
    }
    if word_is(cs, j, k, &['u', 'n', 's', 'i', 'z', 'e', 'd']) {
        return true;
    }
    if word_is(cs, j, k, &['v', 'i', 'r', 't', 'u', 'a', 'l']) {
        return true;
    }
    if word_is(cs, j, k, &['y', 'i', 'e', 'l', 'd']) {
        return true;
    }
    if word_is(cs, j, k, &['t', 'r', 'y']) {
        return true;
    }
    false
}

fn reserved_word(cs: &Vec<char>, j: usize, k: usize) -> (b: bool)
    requires
        j <= k <= cs@.len(),
    ensures
        b == is_reserved(cs@.subrange(j as int, k as int)),
{
    reserved_word_0(cs, j, k) || reserved_word_1(cs, j, k) || reserved_word_2(cs, j, k) || reserved_word_3(cs, j, k)
}

fn substring(cs: &Vec<char>, j: usize, k: usize) -> (s: String)
    requires
        j <= k <= cs@.len(),
    ensures
        s@ == cs@.subrange(j as int, k as int),
{
    let mut s = String::new();
    let mut i = j;
    while i < k
        invariant
            j <= i <= k <= cs@.len(),
            s@ == cs@.subrange(j as int, i as int),
        decreases k - i,
    {
        push_char(&mut s, cs[i]);
        i = i + 1;
        assert(s@ =~= cs@.subrange(j as int, i as int));
    }
    s
}

fn word_token(cs: &Vec<char>, j: usize, k: usize) -> (t: TokenKind)
    requires
        j <= k <= cs@.len(),
    ensures
        t@ == word_kind(cs@.subrange(j as int, k as int)),
{
    if word_is(cs, j, k, &['f', 'n']) {
        TokenKind::Keyword(Keyword::Fn)
    } else if word_is(cs, j, k, &['l', 'e', 't']) {
        TokenKind::Keyword(Keyword::Let)
    } else if word_is(cs, j, k, &['m', 'u', 't']) {
        TokenKind::Keyword(Keyword::Mut)
    } else if word_is(cs, j, k, &['w', 'h', 'i', 'l', 'e']) {
        TokenKind::Keyword(Keyword::While)
    } else if word_is(cs, j, k, &['i', 'f']) {
        TokenKind::Keyword(Keyword::If)
    } else if word_is(cs, j, k, &['e', 'l', 's', 'e']) {
        TokenKind::Keyword(Keyword::Else)
    } else if word_is(cs, j, k, &['t', 'r', 'u', 'e']) {
        TokenKind::Keyword(Keyword::True)
    } else if word_is(cs, j, k, &['f', 'a', 'l', 's', 'e']) {
        TokenKind::Keyword(Keyword::False)
    } else if reserved_word(cs, j, k) {
        TokenKind::Keyword(Keyword::Reserved)
    } else {
        TokenKind::Ident(substring(cs, j, k))
    }
}


fn scan_string(cs: &Vec<char>, lc: &Vec<(usize, usize)>, start: usize) -> (r: Result<(usize, String), ParseError>)
    requires
        start < cs@.len(),
        lc@.len() == cs@.len() + 1,
        forall|k: int| 0 <= k <= cs@.len() ==> #[trigger] lc@[k] == line_col(cs@, k),
    ensures
        match r {
            Ok((k, s)) => string_body(cs@, start as int, start + 1, seq![]) == Ok::<(int, Seq<char>), ParseError>((k as int, s@)),
            Err(e) => string_body(cs@, start as int, start + 1, seq![]) == Err::<(int, Seq<char>), ParseError>(e),
        },
{
    let n = cs.len();
    let mut i = start + 1;
    let mut acc = String::new();
    loop
        invariant
            start + 1 <= i <= cs@.len(),
            lc@.len() == cs@.len() + 1,
            forall|k: int| 0 <= k <= cs@.len() ==> #[trigger] lc@[k] == line_col(cs@, k),
            string_body(cs@, start as int, i as int, acc@) == string_body(cs@, start as int, start + 1, seq![]),
        decreases cs@.len() - i,
    {
        if i >= cs.len() {
            return Err(ParseError {
                kind: ParseErrorKind::UnterminatedString,
                span: range_at(lc, start, cs.len(), Ghost(cs@)),
            });
        }
        let c = cs[i];
        if c == '"' {
            return Ok((i + 1, acc));
        } else if c == '\\' {
            if i + 1 >= cs.len() {
                return Err(ParseError {
                    kind: ParseErrorKind::UnterminatedString,
                    span: range_at(lc, start, cs.len(), Ghost(cs@)),
                });
            }
            let e = cs[i + 1];
            let esc = if e == 'n' {
                '\n'
            } else if e == 't' {
                '\t'
            } else if e == 'r' {
                '\r'
            } else if e == '0' {
                '\0'
            } else if e == '\\' {
                '\\'
            } else if e == '"' {
                '"'
            } else if e == '\'' {
                '\''
            } else {
                return Err(ParseError { kind: ParseErrorKind::InvalidEscape, span: range_at(lc, i, i + 2, Ghost(cs@)) });
            };
            push_char(&mut acc, esc);
            i = i + 2;
        } else {
            push_char(&mut acc, c);
            i = i + 1;
        }
    }
}

proof fn lemma_digits_value_prefix(cs: Seq<char>, j: int, i: int, k: int)
    requires
        0 <= j <= i <= k <= cs.len(),
    ensures
        digits_value(cs.subrange(j, i)) <= digits_value(cs.subrange(j, k)),
    decreases k - i,
{
    if i < k {
        lemma_digits_value_prefix(cs, j, i, k - 1);
        assert(cs.subrange(j, k).drop_last() =~= cs.subrange(j, k - 1));
    }
}

/// The value of the digits in `cs[j..k]`, or `None` where it exceeds `i32::MAX`.
fn number_value(cs: &Vec<char>, j: usize, k: usize) -> (r: Option<i32>)
    requires
        j <= k <= cs@.len(),
        forall|m: int| j <= m < k ==> (is_digit(#[trigger] cs@[m]) || cs@[m] == '_'),
    ensures
        match r {
            Some(v) => digits_value(cs@.subrange(j as int, k as int)) == v && v >= 0,
            None => digits_value(cs@.subrange(j as int, k as int)) > i32::MAX,
        },
{
    let mut v: u64 = 0;
    let mut i = j;
    while i < k
        invariant
            j <= i <= k <= cs@.len(),
            forall|m: int| j <= m < k ==> (is_digit(#[trigger] cs@[m]) || cs@[m] == '_'),
            v == digits_value(cs@.subrange(j as int, i as int)),
            v <= i32::MAX,
        decreases k - i,
    {
        let c = cs[i];
        let ghost w = cs@.subrange(j as int, i as int + 1);
        assert(w.drop_last() =~= cs@.subrange(j as int, i as int));
        assert(w.last() == c);
        if c != '_' {
            v = v * 10 + (c as u64 - '0' as u64);
        }
        i = i + 1;
        if v > 2147483647 {
            proof {
                lemma_digits_value_prefix(cs@, j as int, i as int, k as int);
            }
            return None;
        }
    }
    Some(v as i32)
}

fn lex_token_exec(cs: &Vec<char>, lc: &Vec<(usize, usize)>, j: usize) -> (r: Result<(Token, usize), ParseError>)
    requires
        j < cs@.len(),
        lc@.len() == cs@.len() + 1,
        forall|k: int| 0 <= k <= cs@.len() ==> #[trigger] lc@[k] == line_col(cs@, k),
    ensures
        match r {
            Ok((t, k)) => lex_token(cs@, j as int) == Ok::<(SpecToken, int), ParseError>((t@, k as int)),
            Err(e) => lex_token(cs@, j as int) == Err::<(SpecToken, int), ParseError>(e),
        },
{
    let n = cs.len();
    let c = cs[j];
    if ('a' <= c && c <= 'z') || ('A' <= c && c <= 'Z') || c == '_' {
        let k = scan_ident(cs, j + 1);
        let kind = word_token(cs, j, k);
        Ok((Token { kind, span: range_at(lc, j, k, Ghost(cs@)) }, k))
    } else if '0' <= c && c <= '9' {
        let k = scan_number(cs, j + 1);
        let k2 = scan_ident(cs, k);
        if k2 > k {
            return Err(ParseError { kind: ParseErrorKind::InvalidLiteral, span: range_at(lc, j, k2, Ghost(cs@)) });
        }
        proof {
            lemma_number_end_bounds(cs@, j as int + 1);
        }
        match number_value(cs, j, k) {
            Some(v) => Ok((Token { kind: TokenKind::Int(v), span: range_at(lc, j, k, Ghost(cs@)) }, k)),
            None => Err(ParseError { kind: ParseErrorKind::IntTooLarge, span: range_at(lc, j, k, Ghost(cs@)) }),
        }
    } else if c == '"' {
        match scan_string(cs, lc, j) {
            Ok((k, body)) => {
                proof {
                    lemma_string_body_bounds(cs@, j as int, j as int + 1, seq![]);
                }
                Ok((Token { kind: TokenKind::Str(body), span: range_at(lc, j, k, Ghost(cs@)) }, k))
            },
            Err(e) => Err(e),
        }
    } else if c == '\'' {
        Err(ParseError { kind: ParseErrorKind::InvalidLiteral, span: range_at(lc, j, j + 1, Ghost(cs@)) })
    } else {
        let two = j + 1 < cs.len();
        let (p, k) = if two && c == '&' && cs[j + 1] == '&' {
            (Punct::AndAnd, j + 2)
        } else if two && c == '|' && cs[j + 1] == '|' {
            (Punct::OrOr, j + 2)
        } else if two && c == '=' && cs[j + 1] == '=' {
            (Punct::EqEq, j + 2)
        } else if two && c == '-' && cs[j + 1] == '>' {
            (Punct::Arrow, j + 2)
        } else if c == '+' {
            (Punct::Plus, j + 1)
        } else if c == '-' {
            (Punct::Minus, j + 1)
        } else if c == '*' {
            (Punct::Star, j + 1)
        } else if c == '/' {
            (Punct::Slash, j + 1)
        } else if c == '<' {
            (Punct::Lt, j + 1)
        } else if c == '>' {
            (Punct::Gt, j + 1)
        } else if c == '!' {
            (Punct::Bang, j + 1)
        } else if c == '=' {
            (Punct::Eq, j + 1)
        } else if c == ';' {
            (Punct::Semi, j + 1)
        } else if c == ':' {
            (Punct::Colon, j + 1)
        } else if c == ',' {
            (Punct::Comma, j + 1)
        } else if c == '(' {
            (Punct::LParen, j + 1)
        } else if c == ')' {
            (Punct::RParen, j + 1)
        } else if c == '{' {
            (Punct::LBrace, j + 1)
        } else if c == '}' {
            (Punct::RBrace, j + 1)
        } else if c == '[' {
            (Punct::LBracket, j + 1)
        } else if c == ']' {
            (Punct::RBracket, j + 1)
        } else if c == '.' || c == '&' || c == '|' || c == '#' || c == '$' || c == '%' || c == '^'
            || c == '~' || c == '?' || c == '@' {
            (Punct::Other(c), j + 1)
        } else {
            return Err(ParseError { kind: ParseErrorKind::UnexpectedChar(c), span: range_at(lc, j, j + 1, Ghost(cs@)) });
        };
        Ok((Token { kind: TokenKind::Punct(p), span: range_at(lc, j, k, Ghost(cs@)) }, k))
    }
}

/// Splits source text into tokens.
pub fn tokenize(src: &str) -> (r: Result<Vec<Token>, ParseError>)
    ensures
        match r {
            Ok(v) => spec_tokenize(src@) == Ok::<Seq<SpecToken>, ParseError>(tokens_view(v@)),
            Err(e) => spec_tokenize(src@) == Err::<Seq<SpecToken>, ParseError>(e),
        },
{
    let cs = chars_of(src);
    let lc = line_cols(&cs);
    let mut toks: Vec<Token> = Vec::new();
    let mut i: usize = 0;
    loop
        invariant
            cs@ == src@,
            i <= cs@.len(),
            lc@.len() == cs@.len() + 1,
            forall|k: int| 0 <= k <= cs@.len() ==> #[trigger] lc@[k] == line_col(cs@, k),
            lex_from(cs@, 0) == match lex_from(cs@, i as int) {
                Ok(rest) => Ok(tokens_view(toks@) + rest),
                Err(e) => Err(e),
            },
        decreases cs@.len() - i,
    {
        let j = skip_trivia_exec(&cs, i);
        if j == cs.len() {
            assert(tokens_view(toks@) + seq![] =~= tokens_view(toks@));
            return Ok(toks);
        }
        match lex_token_exec(&cs, &lc, j) {
            Err(e) => {
                return Err(e);
            },
            Ok((tok, k)) => {
                proof {
                    lemma_lex_token_bounds(cs@, j as int);
                }
                let ghost old_toks = toks@;
                let ghost t = tok@;
                toks.push(tok);
                assert(tokens_view(toks@) =~= tokens_view(old_toks) + seq![t]);
                assert forall|rest: Seq<SpecToken>| #![auto] tokens_view(old_toks) + (seq![t] + rest) == tokens_view(toks@) + rest by {
                    assert(tokens_view(old_toks) + (seq![t] + rest) =~= tokens_view(toks@) + rest);
                }
                i = k;
            },
        }
    }
}
} // verus!
