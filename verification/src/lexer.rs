//! Tokens of the type and field syntax that docblock values are written in.
//!
//! Between tokens, white space, line ends, commas and the byte order mark
//! are skipped. Positions are character positions in the text.

use vstd::prelude::*;

verus! {

/// What kind of token stands at a place.
#[derive(Clone, Copy, Debug, PartialEq, Eq, Hash, Structural)]
pub enum TokenKind {
    EndOfFile,
    Name,
    IntegerLiteral,
    FloatLiteral,
    StringLiteral,
    Exclamation,
    Dollar,
    Ampersand,
    OpenParen,
    CloseParen,
    Colon,
    Equals,
    At,
    OpenBracket,
    CloseBracket,
    OpenBrace,
    CloseBrace,
    Pipe,
    /// A string without its closing quote on the same line.
    UnterminatedString,
    /// Digits that form no number: a lone sign, a leading zero, a
    /// fraction or exponent without digits, or a number that runs into a
    /// name.
    InvalidNumber,
    /// A character that starts no token.
    UnknownCharacter,
}

impl TokenKind {
    /// The three kinds that stand for text no token can be made of.
    pub open spec fn spec_is_error(self) -> bool {
        self == TokenKind::UnterminatedString || self == TokenKind::InvalidNumber || self
            == TokenKind::UnknownCharacter
    }

    #[verifier::when_used_as_spec(spec_is_error)]
    pub fn is_error(self) -> (error: bool)
        ensures
            error == self.spec_is_error(),
    {
        match self {
            TokenKind::UnterminatedString | TokenKind::InvalidNumber | TokenKind::UnknownCharacter => true,
            _ => false,
        }
    }
}

/// The classes of characters that a scan runs over.
#[derive(Clone, Copy, Debug, PartialEq, Eq, Structural)]
pub enum CharClass {
    Ignored,
    NameContinue,
    Digit,
    /// White space as Unicode defines it.
    Whitespace,
}

pub open spec fn spec_is_ignored(c: char) -> bool {
    c == ' ' || c == '\t' || c == '\n' || c == '\r' || c == ',' || c == '\u{feff}'
}

pub open spec fn spec_is_digit(c: char) -> bool {
    '0' <= c <= '9'
}

pub open spec fn spec_is_name_start(c: char) -> bool {
    ('a' <= c <= 'z') || ('A' <= c <= 'Z') || c == '_'
}

pub open spec fn spec_is_name_continue(c: char) -> bool {
    spec_is_name_start(c) || spec_is_digit(c)
}

/// The characters with the Unicode property `White_Space`.
pub open spec fn spec_is_whitespace(c: char) -> bool {
    ('\u{9}' <= c <= '\u{d}') || c == ' ' || c == '\u{85}' || c == '\u{a0}' || c == '\u{1680}' || (
    '\u{2000}' <= c <= '\u{200a}') || c == '\u{2028}' || c == '\u{2029}' || c == '\u{202f}' || c
        == '\u{205f}' || c == '\u{3000}'
}

pub open spec fn spec_in_class(class: CharClass, c: char) -> bool {
    match class {
        CharClass::Ignored => spec_is_ignored(c),
        CharClass::NameContinue => spec_is_name_continue(c),
        CharClass::Digit => spec_is_digit(c),
        CharClass::Whitespace => spec_is_whitespace(c),
    }
}

#[verifier::when_used_as_spec(spec_is_whitespace)]
pub fn is_whitespace(c: char) -> (white: bool)
    ensures
        white == spec_is_whitespace(c),
{
    ('\u{9}' <= c && c <= '\u{d}') || c == ' ' || c == '\u{85}' || c == '\u{a0}' || c == '\u{1680}'
        || ('\u{2000}' <= c && c <= '\u{200a}') || c == '\u{2028}' || c == '\u{2029}' || c
        == '\u{202f}' || c == '\u{205f}' || c == '\u{3000}'
}

#[verifier::when_used_as_spec(spec_is_ignored)]
pub fn is_ignored(c: char) -> (ignored: bool)
    ensures
        ignored == spec_is_ignored(c),
{
    c == ' ' || c == '\t' || c == '\n' || c == '\r' || c == ',' || c == '\u{feff}'
}

#[verifier::when_used_as_spec(spec_is_digit)]
pub fn is_digit(c: char) -> (digit: bool)
    ensures
        digit == spec_is_digit(c),
{
    '0' <= c && c <= '9'
}

#[verifier::when_used_as_spec(spec_is_name_start)]
pub fn is_name_start(c: char) -> (start: bool)
    ensures
        start == spec_is_name_start(c),
{
    ('a' <= c && c <= 'z') || ('A' <= c && c <= 'Z') || c == '_'
}

#[verifier::when_used_as_spec(spec_is_name_continue)]
pub fn is_name_continue(c: char) -> (part: bool)
    ensures
        part == spec_is_name_continue(c),
{
    is_name_start(c) || is_digit(c)
}

#[verifier::when_used_as_spec(spec_in_class)]
pub fn in_class(class: CharClass, c: char) -> (member: bool)
    ensures
        member == spec_in_class(class, c),
{
    match class {
        CharClass::Ignored => is_ignored(c),
        CharClass::NameContinue => is_name_continue(c),
        CharClass::Digit => is_digit(c),
        CharClass::Whitespace => is_whitespace(c),
    }
}

/// The first position at or after `pos` that holds no character of
/// `class`; the length of the text if there is none.
pub open spec fn scan_end(text: Seq<char>, pos: int, class: CharClass) -> int
    decreases text.len() - pos,
{
    if 0 <= pos < text.len() && spec_in_class(class, text[pos]) {
        scan_end(text, pos + 1, class)
    } else {
        pos
    }
}

/// What `scan_end` returns is the end of the longest run of `class` that
/// starts at `pos`.
pub proof fn lemma_scan_end(text: Seq<char>, pos: int, class: CharClass)
    requires
        0 <= pos <= text.len(),
    ensures
        pos <= scan_end(text, pos, class) <= text.len(),
        forall|k: int| pos <= k < scan_end(text, pos, class) ==> spec_in_class(class, text[k]),
        scan_end(text, pos, class) < text.len() ==> !spec_in_class(
            class,
            text[scan_end(text, pos, class)],
        ),
    decreases text.len() - pos,
{
    if pos < text.len() && spec_in_class(class, text[pos]) {
        lemma_scan_end(text, pos + 1, class);
    }
}

pub fn scan(chars: &Vec<char>, pos: usize, class: CharClass) -> (end: usize)
    requires
        pos <= chars.len(),
    ensures
        end as int == scan_end(chars@, pos as int, class),
        pos <= end <= chars.len(),
{
    let mut i: usize = pos;
    while i < chars.len() && in_class(class, chars[i])
        invariant
            pos <= i <= chars.len(),
            scan_end(chars@, pos as int, class) == scan_end(chars@, i as int, class),
        decreases chars.len() - i,
    {
        i += 1;
    }
    i
}

/// Where the string that opens before `pos` ends: the position after its
/// closing quote and `true`, or the position of the line end or text end
/// that cut it short and `false`. A backslash takes the next character
/// with it.
pub open spec fn string_end(text: Seq<char>, pos: int) -> (int, bool)
    decreases text.len() - pos,
{
    if !(0 <= pos < text.len()) {
        (pos, false)
    } else if text[pos] == '\n' || text[pos] == '\r' {
        (pos, false)
    } else if text[pos] == '"' {
        (pos + 1, true)
    } else if text[pos] == '\\' && pos + 1 < text.len() && text[pos + 1] != '\n' && text[pos + 1]
        != '\r' {
        string_end(text, pos + 2)
    } else {
        string_end(text, pos + 1)
    }
}

pub proof fn lemma_string_end(text: Seq<char>, pos: int)
    requires
        0 <= pos <= text.len(),
    ensures
        pos <= string_end(text, pos).0 <= text.len(),
        string_end(text, pos).1 ==> pos < string_end(text, pos).0,
    decreases text.len() - pos,
{
    if pos < text.len() && text[pos] != '\n' && text[pos] != '\r' && text[pos] != '"' {
        if text[pos] == '\\' && pos + 1 < text.len() && text[pos + 1] != '\n' && text[pos + 1]
            != '\r' {
            lemma_string_end(text, pos + 2);
        } else {
            lemma_string_end(text, pos + 1);
        }
    }
}

pub fn scan_string(chars: &Vec<char>, pos: usize) -> (result: (usize, bool))
    requires
        pos <= chars.len(),
    ensures
        result.0 as int == string_end(chars@, pos as int).0,
        result.1 == string_end(chars@, pos as int).1,
        pos <= result.0 <= chars.len(),
        result.1 ==> pos < result.0,
{
    let mut i: usize = pos;
    proof {
        lemma_string_end(chars@, pos as int);
    }
    loop
        invariant
            pos <= i <= chars.len(),
            string_end(chars@, pos as int) == string_end(chars@, i as int),
        decreases chars.len() - i,
    {
        if i >= chars.len() {
            return (i, false);
        }
        let c = chars[i];
        if c == '\n' || c == '\r' {
            return (i, false);
        }
        if c == '"' {
            return (i + 1, true);
        }
        if c == '\\' && i + 1 < chars.len() && chars[i + 1] != '\n' && chars[i + 1] != '\r' {
            i += 2;
        } else {
            i += 1;
        }
    }
}

/// A token as the grammar sees it: its kind and the character positions
/// it covers.
pub struct Lexeme {
    pub kind: TokenKind,
    pub start: int,
    pub end: int,
}

/// The kind of the one-character token `c`, if it is one.
pub open spec fn spec_punctuator(c: char) -> Option<TokenKind> {
    if c == '!' {
        Some(TokenKind::Exclamation)
    } else if c == '$' {
        Some(TokenKind::Dollar)
    } else if c == '&' {
        Some(TokenKind::Ampersand)
    } else if c == '(' {
        Some(TokenKind::OpenParen)
    } else if c == ')' {
        Some(TokenKind::CloseParen)
    } else if c == ':' {
        Some(TokenKind::Colon)
    } else if c == '=' {
        Some(TokenKind::Equals)
    } else if c == '@' {
        Some(TokenKind::At)
    } else if c == '[' {
        Some(TokenKind::OpenBracket)
    } else if c == ']' {
        Some(TokenKind::CloseBracket)
    } else if c == '{' {
        Some(TokenKind::OpenBrace)
    } else if c == '}' {
        Some(TokenKind::CloseBrace)
    } else if c == '|' {
        Some(TokenKind::Pipe)
    } else {
        None
    }
}

#[verifier::when_used_as_spec(spec_punctuator)]
pub fn punctuator(c: char) -> (kind: Option<TokenKind>)
    ensures
        kind == spec_punctuator(c),
{
    if c == '!' {
        Some(TokenKind::Exclamation)
    } else if c == '$' {
        Some(TokenKind::Dollar)
    } else if c == '&' {
        Some(TokenKind::Ampersand)
    } else if c == '(' {
        Some(TokenKind::OpenParen)
    } else if c == ')' {
        Some(TokenKind::CloseParen)
    } else if c == ':' {
        Some(TokenKind::Colon)
    } else if c == '=' {
        Some(TokenKind::Equals)
    } else if c == '@' {
        Some(TokenKind::At)
    } else if c == '[' {
        Some(TokenKind::OpenBracket)
    } else if c == ']' {
        Some(TokenKind::CloseBracket)
    } else if c == '{' {
        Some(TokenKind::OpenBrace)
    } else if c == '}' {
        Some(TokenKind::CloseBrace)
    } else if c == '|' {
        Some(TokenKind::Pipe)
    } else {
        None
    }
}

/// The number that starts at `start`: an optional minus sign, digits
/// without a leading zero, an optional fraction, an optional exponent, and
/// after it neither a name character nor a period. Returns the kind and
/// the end of what was read.
pub open spec fn number_token(text: Seq<char>, start: int) -> (TokenKind, int) {
    let digits = if 0 <= start < text.len() && text[start] == '-' {
        start + 1
    } else {
        start
    };
    let whole = scan_end(text, digits, CharClass::Digit);
    if whole == digits {
        (TokenKind::InvalidNumber, whole)
    } else if whole - digits > 1 && text[digits] == '0' {
        (TokenKind::InvalidNumber, whole)
    } else {
        let has_fraction = whole < text.len() && text[whole] == '.';
        let fraction = if has_fraction {
            scan_end(text, whole + 1, CharClass::Digit)
        } else {
            whole
        };
        if has_fraction && fraction == whole + 1 {
            (TokenKind::InvalidNumber, fraction)
        } else {
            let has_exponent = fraction < text.len() && (text[fraction] == 'e' || text[fraction]
                == 'E');
            let exponent_digits = if has_exponent && fraction + 1 < text.len() && (text[fraction
                + 1] == '+' || text[fraction + 1] == '-') {
                fraction + 2
            } else if has_exponent {
                fraction + 1
            } else {
                fraction
            };
            let exponent = if has_exponent {
                scan_end(text, exponent_digits, CharClass::Digit)
            } else {
                fraction
            };
            if has_exponent && exponent == exponent_digits {
                (TokenKind::InvalidNumber, exponent)
            } else if exponent < text.len() && (spec_is_name_continue(text[exponent])
                || text[exponent] == '.') {
                (TokenKind::InvalidNumber, exponent + 1)
            } else if has_fraction || has_exponent {
                (TokenKind::FloatLiteral, exponent)
            } else {
                (TokenKind::IntegerLiteral, exponent)
            }
        }
    }
}

/// The first token at or after `pos`.
#[verifier::opaque]
pub open spec fn next_lexeme(text: Seq<char>, pos: int) -> Lexeme {
    let start = scan_end(text, pos, CharClass::Ignored);
    if !(0 <= start < text.len()) {
        Lexeme { kind: TokenKind::EndOfFile, start, end: start }
    } else {
        let c = text[start];
        if spec_is_name_start(c) {
            Lexeme {
                kind: TokenKind::Name,
                start,
                end: scan_end(text, start + 1, CharClass::NameContinue),
            }
        } else if c == '-' || spec_is_digit(c) {
            Lexeme { kind: number_token(text, start).0, start, end: number_token(text, start).1 }
        } else if c == '"' {
            Lexeme {
                kind: if string_end(text, start + 1).1 {
                    TokenKind::StringLiteral
                } else {
                    TokenKind::UnterminatedString
                },
                start,
                end: string_end(text, start + 1).0,
            }
        } else {
            Lexeme {
                kind: match spec_punctuator(c) {
                    Some(kind) => kind,
                    None => TokenKind::UnknownCharacter,
                },
                start,
                end: start + 1,
            }
        }
    }
}

/// Every token lies within the text, at or after the position the search
/// began at, and every token but the end of the text is at least one
/// character long.
pub proof fn lemma_next_lexeme_bounds(text: Seq<char>, pos: int)
    requires
        0 <= pos <= text.len(),
    ensures
        pos <= next_lexeme(text, pos).start <= next_lexeme(text, pos).end <= text.len(),
        next_lexeme(text, pos).kind != TokenKind::EndOfFile ==> next_lexeme(text, pos).start
            < next_lexeme(text, pos).end,
        next_lexeme(text, pos).kind == TokenKind::EndOfFile ==> next_lexeme(text, pos).start
            == text.len(),
{
    reveal(next_lexeme);
    lemma_scan_end(text, pos, CharClass::Ignored);
    let start = scan_end(text, pos, CharClass::Ignored);
    if start < text.len() {
        lemma_scan_end(text, start + 1, CharClass::NameContinue);
        lemma_string_end(text, start + 1);
        if text[start] == '-' || spec_is_digit(text[start]) {
            lemma_number_token_bounds(text, start);
        }
    }
}

pub proof fn lemma_number_token_bounds(text: Seq<char>, start: int)
    requires
        0 <= start < text.len(),
        text[start] == '-' || spec_is_digit(text[start]),
    ensures
        start < number_token(text, start).1 <= text.len(),
        number_token(text, start).0 != TokenKind::EndOfFile,
{
    let digits = if text[start] == '-' {
        start + 1
    } else {
        start
    };
    lemma_scan_end(text, digits, CharClass::Digit);
    let whole = scan_end(text, digits, CharClass::Digit);
    if whole < text.len() {
        lemma_scan_end(text, whole + 1, CharClass::Digit);
        let fraction = if text[whole] == '.' {
            scan_end(text, whole + 1, CharClass::Digit)
        } else {
            whole
        };
        if fraction < text.len() {
            lemma_scan_end(text, fraction + 1, CharClass::Digit);
            if fraction + 1 < text.len() {
                lemma_scan_end(text, fraction + 2, CharClass::Digit);
            }
        }
    }
}

/// From where the search began to the end of a name, no character is a
/// period.
pub proof fn lemma_name_lexeme_has_no_period(text: Seq<char>, pos: int)
    requires
        0 <= pos <= text.len(),
        next_lexeme(text, pos).kind == TokenKind::Name,
    ensures
        pos <= next_lexeme(text, pos).end <= text.len(),
        forall|k: int| pos <= k < next_lexeme(text, pos).end ==> text[k] != '.',
{
    reveal(next_lexeme);
    lemma_scan_end(text, pos, CharClass::Ignored);
    let start = scan_end(text, pos, CharClass::Ignored);
    lemma_scan_end(text, start + 1, CharClass::NameContinue);
    if start < text.len() && (text[start] == '-' || spec_is_digit(text[start])) {
        lemma_number_token_bounds(text, start);
    }
}

/// A string token begins with a quote and ends with one, two characters
/// at the least.
pub proof fn lemma_string_lexeme(text: Seq<char>, pos: int)
    requires
        0 <= pos <= text.len(),
        next_lexeme(text, pos).kind == TokenKind::StringLiteral,
    ensures
        next_lexeme(text, pos).start + 2 <= next_lexeme(text, pos).end <= text.len(),
        text[next_lexeme(text, pos).start] == '"',
{
    reveal(next_lexeme);
    lemma_scan_end(text, pos, CharClass::Ignored);
    let start = scan_end(text, pos, CharClass::Ignored);
    lemma_string_end(text, start + 1);
}

/// A token: its kind and the character positions it covers.
#[derive(Clone, Copy, Debug, PartialEq, Eq, Structural)]
pub struct Token {
    pub kind: TokenKind,
    pub start: usize,
    pub end: usize,
}

impl View for Token {
    type V = Lexeme;

    open spec fn view(&self) -> Lexeme {
        Lexeme { kind: self.kind, start: self.start as int, end: self.end as int }
    }
}

fn scan_number(chars: &Vec<char>, start: usize) -> (result: (TokenKind, usize))
    requires
        start < chars.len(),
        chars[start as int] == '-' || spec_is_digit(chars[start as int]),
    ensures
        result.0 == number_token(chars@, start as int).0,
        result.1 as int == number_token(chars@, start as int).1,
{
    proof {
        lemma_number_token_bounds(chars@, start as int);
    }
    let digits: usize = if chars[start] == '-' {
        start + 1
    } else {
        start
    };
    let whole = scan(chars, digits, CharClass::Digit);
    if whole == digits {
        return (TokenKind::InvalidNumber, whole);
    }
    if whole - digits > 1 && chars[digits] == '0' {
        return (TokenKind::InvalidNumber, whole);
    }
    let has_fraction = whole < chars.len() && chars[whole] == '.';
    let fraction: usize = if has_fraction {
        scan(chars, whole + 1, CharClass::Digit)
    } else {
        whole
    };
    if has_fraction && fraction == whole + 1 {
        return (TokenKind::InvalidNumber, fraction);
    }
    let has_exponent = fraction < chars.len() && (chars[fraction] == 'e' || chars[fraction]
        == 'E');
    let exponent_digits: usize = if has_exponent && fraction + 1 < chars.len() && (chars[fraction
        + 1] == '+' || chars[fraction + 1] == '-') {
        fraction + 2
    } else if has_exponent {
        fraction + 1
    } else {
        fraction
    };
    let exponent: usize = if has_exponent {
        scan(chars, exponent_digits, CharClass::Digit)
    } else {
        fraction
    };
    if has_exponent && exponent == exponent_digits {
        (TokenKind::InvalidNumber, exponent)
    } else if exponent < chars.len() && (is_name_continue(chars[exponent]) || chars[exponent]
        == '.') {
        (TokenKind::InvalidNumber, exponent + 1)
    } else if has_fraction || has_exponent {
        (TokenKind::FloatLiteral, exponent)
    } else {
        (TokenKind::IntegerLiteral, exponent)
    }
}

/// The first token at or after `pos`.
pub fn next_token(chars: &Vec<char>, pos: usize) -> (token: Token)
    requires
        pos <= chars.len(),
    ensures
        token@ == next_lexeme(chars@, pos as int),
        pos <= token.start <= token.end <= chars.len(),
        token.kind != TokenKind::EndOfFile ==> token.start < token.end,
        token.kind == TokenKind::EndOfFile ==> token.start == chars.len(),
{
    proof {
        reveal(next_lexeme);
        lemma_next_lexeme_bounds(chars@, pos as int);
    }
    let start = scan(chars, pos, CharClass::Ignored);
    if start >= chars.len() {
        return Token { kind: TokenKind::EndOfFile, start, end: start };
    }
    let c = chars[start];
    if is_name_start(c) {
        let end = scan(chars, start + 1, CharClass::NameContinue);
        Token { kind: TokenKind::Name, start, end }
    } else if c == '-' || is_digit(c) {
        let (kind, end) = scan_number(chars, start);
        Token { kind, start, end }
    } else if c == '"' {
        let (end, closed) = scan_string(chars, start + 1);
        Token {
            kind: if closed {
                TokenKind::StringLiteral
            } else {
                TokenKind::UnterminatedString
            },
            start,
            end,
        }
    } else {
        let kind = match punctuator(c) {
            Some(kind) => kind,
            None => TokenKind::UnknownCharacter,
        };
        Token { kind, start, end: start + 1 }
    }
}

} // verus!
