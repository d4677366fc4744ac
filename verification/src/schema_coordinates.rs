//! Schema coordinates: the names by which the parts of a schema are
//! pointed at, such as `Type`, `Type.field`, `Type.field(argument:)`,
//! `@directive` and `@directive(argument:)`.
//!
//! A coordinate is read strictly, as the GraphQL specification writes it,
//! or with best effort, which also takes what was most likely meant by
//! forms such as `Type.field.argument`.

use vstd::prelude::*;
use vstd::string::{StrSliceExecFns, StringExecFns};
use crate::lexer::{is_whitespace, scan, scan_end, spec_is_whitespace, CharClass};
use crate::source::{chars_of, compare_texts, text_order, Order};

verus! {

/// A place in a schema.
#[derive(Clone, Debug, PartialEq, Eq, Hash)]
pub enum SchemaCoordinate {
    Directive { name: String },
    DirectiveArgument { directive_name: String, argument_name: String },
    Type { name: String },
    Member { parent_name: String, member_name: String },
    Argument { parent_name: String, member_name: String, argument_name: String },
}

pub enum SchemaCoordinateView {
    Directive { name: Seq<char> },
    DirectiveArgument { directive_name: Seq<char>, argument_name: Seq<char> },
    Type { name: Seq<char> },
    Member { parent_name: Seq<char>, member_name: Seq<char> },
    Argument { parent_name: Seq<char>, member_name: Seq<char>, argument_name: Seq<char> },
}

impl DeepView for SchemaCoordinate {
    type V = SchemaCoordinateView;

    open spec fn deep_view(&self) -> SchemaCoordinateView {
        match self {
            SchemaCoordinate::Directive { name } => SchemaCoordinateView::Directive { name: name@ },
            SchemaCoordinate::DirectiveArgument { directive_name, argument_name } =>
                SchemaCoordinateView::DirectiveArgument {
                    directive_name: directive_name@,
                    argument_name: argument_name@,
                },
            SchemaCoordinate::Type { name } => SchemaCoordinateView::Type { name: name@ },
            SchemaCoordinate::Member { parent_name, member_name } => SchemaCoordinateView::Member {
                parent_name: parent_name@,
                member_name: member_name@,
            },
            SchemaCoordinate::Argument { parent_name, member_name, argument_name } =>
                SchemaCoordinateView::Argument {
                    parent_name: parent_name@,
                    member_name: member_name@,
                    argument_name: argument_name@,
                },
        }
    }
}

impl SchemaCoordinateView {
    /// The name that the coordinate begins with: that of the type or of
    /// the directive.
    pub open spec fn root_name(self) -> Seq<char> {
        match self {
            SchemaCoordinateView::Type { name } => name,
            SchemaCoordinateView::Member { parent_name, .. } => parent_name,
            SchemaCoordinateView::Argument { parent_name, .. } => parent_name,
            SchemaCoordinateView::Directive { name } => name,
            SchemaCoordinateView::DirectiveArgument { directive_name, .. } => directive_name,
        }
    }

    /// The coordinate as the GraphQL specification writes it.
    pub open spec fn text(self) -> Seq<char> {
        match self {
            SchemaCoordinateView::Type { name } => name,
            SchemaCoordinateView::Member { parent_name, member_name } => parent_name + "."@
                + member_name,
            SchemaCoordinateView::Argument { parent_name, member_name, argument_name } =>
                parent_name + "."@ + member_name + "("@ + argument_name + ":)"@,
            SchemaCoordinateView::Directive { name } => "@"@ + name,
            SchemaCoordinateView::DirectiveArgument { directive_name, argument_name } => "@"@
                + directive_name + "("@ + argument_name + ":)"@,
        }
    }
}

impl SchemaCoordinate {
    /// The name that the coordinate begins with: that of the type or of
    /// the directive.
    pub fn root_name(&self) -> (name: &String)
        ensures
            name@ == self.deep_view().root_name(),
    {
        match self {
            SchemaCoordinate::Type { name } => name,
            SchemaCoordinate::Member { parent_name, .. } => parent_name,
            SchemaCoordinate::Argument { parent_name, .. } => parent_name,
            SchemaCoordinate::Directive { name } => name,
            SchemaCoordinate::DirectiveArgument { directive_name, .. } => directive_name,
        }
    }

    /// The coordinate as the GraphQL specification writes it.
    pub fn to_string(&self) -> (text: String)
        ensures
            text@ == self.deep_view().text(),
    {
        match self {
            SchemaCoordinate::Type { name } => name.clone(),
            SchemaCoordinate::Member { parent_name, member_name } => {
                let mut text = parent_name.clone();
                text.append(".");
                text.append(member_name.as_str());
                text
            },
            SchemaCoordinate::Argument { parent_name, member_name, argument_name } => {
                let mut text = parent_name.clone();
                text.append(".");
                text.append(member_name.as_str());
                text.append("(");
                text.append(argument_name.as_str());
                text.append(":)");
                text
            },
            SchemaCoordinate::Directive { name } => String::from_str("@").concat(name.as_str()),
            SchemaCoordinate::DirectiveArgument { directive_name, argument_name } => {
                let mut text = String::from_str("@");
                text.append(directive_name.as_str());
                text.append("(");
                text.append(argument_name.as_str());
                text.append(":)");
                text
            },
        }
    }
}

/// Where the white space at the end of `text` begins, not before `start`.
pub open spec fn spec_trim_end(text: Seq<char>, start: int, end: int) -> int
    decreases end,
{
    if 0 <= start < end <= text.len() && spec_is_whitespace(text[end - 1]) {
        spec_trim_end(text, start, end - 1)
    } else {
        end
    }
}

/// `text` without the white space at its start and at its end.
pub open spec fn spec_trim(text: Seq<char>) -> Seq<char> {
    let start = scan_end(text, 0, CharClass::Whitespace);
    text.subrange(start, spec_trim_end(text, start, text.len() as int))
}

/// `text` without the white space at its start and at its end.
pub fn trim(text: &str) -> (trimmed: &str)
    ensures
        trimmed@ == spec_trim(text@),
{
    let chars = chars_of(text);
    proof {
        crate::lexer::lemma_scan_end(chars@, 0, CharClass::Whitespace);
    }
    let start = scan(&chars, 0, CharClass::Whitespace);
    let mut end: usize = chars.len();
    while end > start && is_whitespace(chars[end - 1])
        invariant
            start <= end <= chars.len(),
            spec_trim_end(chars@, start as int, chars.len() as int) == spec_trim_end(
                chars@,
                start as int,
                end as int,
            ),
        decreases end,
    {
        end -= 1;
    }
    text.substring_char(start, end)
}

/// The kinds of tokens of a coordinate.
#[derive(Clone, Copy, Debug, PartialEq, Eq, Structural)]
pub enum CoordinateTokenKind {
    At,
    Period,
    OpenParen,
    CloseParen,
    Colon,
    Name,
}

/// What stands at a position of a coordinate: the end of the text, a
/// character that begins no token, or a token up to the position `end`.
pub enum CoordinateLexeme {
    End,
    Error,
    Token { kind: CoordinateTokenKind, end: int },
}

pub open spec fn spec_is_letter(c: char) -> bool {
    ('a' <= c <= 'z') || ('A' <= c <= 'Z')
}

/// What stands at position `pos`. A name begins with a letter and goes on
/// with letters, digits and underscores; nothing is skipped.
pub open spec fn coordinate_lexeme(text: Seq<char>, pos: int) -> CoordinateLexeme {
    if !(0 <= pos < text.len()) {
        CoordinateLexeme::End
    } else {
        let c = text[pos];
        if c == '@' {
            CoordinateLexeme::Token { kind: CoordinateTokenKind::At, end: pos + 1 }
        } else if c == '.' {
            CoordinateLexeme::Token { kind: CoordinateTokenKind::Period, end: pos + 1 }
        } else if c == '(' {
            CoordinateLexeme::Token { kind: CoordinateTokenKind::OpenParen, end: pos + 1 }
        } else if c == ')' {
            CoordinateLexeme::Token { kind: CoordinateTokenKind::CloseParen, end: pos + 1 }
        } else if c == ':' {
            CoordinateLexeme::Token { kind: CoordinateTokenKind::Colon, end: pos + 1 }
        } else if spec_is_letter(c) {
            CoordinateLexeme::Token {
                kind: CoordinateTokenKind::Name,
                end: scan_end(text, pos + 1, CharClass::NameContinue),
            }
        } else {
            CoordinateLexeme::Error
        }
    }
}

/// What stands at a position, as the parser holds it.
#[derive(Clone, Copy, Debug, PartialEq, Eq, Structural)]
pub enum CoordinateToken {
    End,
    Error,
    Token { kind: CoordinateTokenKind, end: usize },
}

impl View for CoordinateToken {
    type V = CoordinateLexeme;

    open spec fn view(&self) -> CoordinateLexeme {
        match self {
            CoordinateToken::End => CoordinateLexeme::End,
            CoordinateToken::Error => CoordinateLexeme::Error,
            CoordinateToken::Token { kind, end } => CoordinateLexeme::Token {
                kind: *kind,
                end: *end as int,
            },
        }
    }
}

fn next_coordinate_token(chars: &Vec<char>, pos: usize) -> (token: CoordinateToken)
    requires
        pos <= chars.len(),
    ensures
        token@ == coordinate_lexeme(chars@, pos as int),
        token matches CoordinateToken::Token { end, .. } ==> pos < end <= chars.len(),
        token is Error ==> pos < chars.len(),
        token is End ==> pos == chars.len(),
{
    if pos >= chars.len() {
        return CoordinateToken::End;
    }
    let c = chars[pos];
    if c == '@' {
        CoordinateToken::Token { kind: CoordinateTokenKind::At, end: pos + 1 }
    } else if c == '.' {
        CoordinateToken::Token { kind: CoordinateTokenKind::Period, end: pos + 1 }
    } else if c == '(' {
        CoordinateToken::Token { kind: CoordinateTokenKind::OpenParen, end: pos + 1 }
    } else if c == ')' {
        CoordinateToken::Token { kind: CoordinateTokenKind::CloseParen, end: pos + 1 }
    } else if c == ':' {
        CoordinateToken::Token { kind: CoordinateTokenKind::Colon, end: pos + 1 }
    } else if ('a' <= c && c <= 'z') || ('A' <= c && c <= 'Z') {
        CoordinateToken::Token {
            kind: CoordinateTokenKind::Name,
            end: scan(chars, pos + 1, CharClass::NameContinue),
        }
    } else {
        CoordinateToken::Error
    }
}

/// What a coordinate got wrong.
#[derive(Clone, Copy, Debug, PartialEq, Eq, Structural)]
pub enum CoordinateErrorKind {
    EmptyInput,
    LexerError,
    ExpectedNameOrAt,
    MissingDirectiveName,
    ExpectedDirectiveName,
    MissingArgumentName,
    ExpectedArgumentName,
    ExpectedOpenParen,
    MissingCloseParen,
    ExpectedCloseParen,
    MissingColon,
    ExpectedColon,
    MissingMemberName,
    ExpectedMemberName,
    ExpectedPeriod,
    ExpectedEndOfInput,
}

/// An error of reading a coordinate: what was wrong, and the characters
/// `start..end` of the text that the message quotes. Where the text ended
/// too early nothing is quoted.
pub struct CoordinateFailure {
    pub kind: CoordinateErrorKind,
    pub start: int,
    pub end: int,
}

#[derive(Clone, Copy, Debug, PartialEq, Eq, Structural)]
pub struct CoordinateError {
    pub kind: CoordinateErrorKind,
    pub start: usize,
    pub end: usize,
}

impl View for CoordinateError {
    type V = CoordinateFailure;

    open spec fn view(&self) -> CoordinateFailure {
        CoordinateFailure { kind: self.kind, start: self.start as int, end: self.end as int }
    }
}

/// The error for what stands at `pos` where something else was expected:
/// a lexer error for a character that begins no token, `missing` at the
/// end of the text, and `unexpected` with the token for a token.
pub open spec fn unexpected_at(
    text: Seq<char>,
    pos: int,
    missing: CoordinateErrorKind,
    unexpected: CoordinateErrorKind,
) -> CoordinateFailure {
    match coordinate_lexeme(text, pos) {
        CoordinateLexeme::End => CoordinateFailure { kind: missing, start: pos, end: pos },
        CoordinateLexeme::Error => CoordinateFailure {
            kind: CoordinateErrorKind::LexerError,
            start: pos,
            end: pos + 1,
        },
        CoordinateLexeme::Token { end, .. } => CoordinateFailure {
            kind: unexpected,
            start: pos,
            end,
        },
    }
}

fn unexpected(
    chars: &Vec<char>,
    pos: usize,
    missing: CoordinateErrorKind,
    other: CoordinateErrorKind,
) -> (error: CoordinateError)
    requires
        pos <= chars.len(),
    ensures
        error@ == unexpected_at(chars@, pos as int, missing, other),
        error.start <= error.end <= chars.len(),
{
    match next_coordinate_token(chars, pos) {
        CoordinateToken::End => CoordinateError { kind: missing, start: pos, end: pos },
        CoordinateToken::Error => CoordinateError {
            kind: CoordinateErrorKind::LexerError,
            start: pos,
            end: pos + 1,
        },
        CoordinateToken::Token { end, .. } => CoordinateError { kind: other, start: pos, end },
    }
}

/// The colon and closing parenthesis behind the name of an argument. Read
/// strictly, both must be there; with best effort either may be missing
/// or be something else. Returns the position behind what was read.
pub open spec fn spec_argument_close(text: Seq<char>, pos: int, best_effort: bool) -> Result<
    int,
    CoordinateFailure,
> {
    match coordinate_lexeme(text, pos) {
        CoordinateLexeme::Token { kind: CoordinateTokenKind::Colon, end: after_colon } => {
            match coordinate_lexeme(text, after_colon) {
                CoordinateLexeme::Token { kind: CoordinateTokenKind::CloseParen, end } => Ok(end),
                _ => if best_effort {
                    Ok(after_colon)
                } else {
                    Err(
                        unexpected_at(
                            text,
                            after_colon,
                            CoordinateErrorKind::MissingCloseParen,
                            CoordinateErrorKind::ExpectedCloseParen,
                        ),
                    )
                },
            }
        },
        _ => if best_effort {
            Ok(pos)
        } else {
            Err(
                unexpected_at(
                    text,
                    pos,
                    CoordinateErrorKind::MissingColon,
                    CoordinateErrorKind::ExpectedColon,
                ),
            )
        },
    }
}

/// An argument behind a member or a directive: nothing at the end of the
/// text, else `(name:)`. With best effort `.name` is an argument too, and
/// an opening parenthesis without a name behind it is none. Returns the
/// characters of the name, if there is an argument.
pub open spec fn spec_argument_name(text: Seq<char>, pos: int, best_effort: bool) -> Result<
    Option<(int, int)>,
    CoordinateFailure,
> {
    match coordinate_lexeme(text, pos) {
        CoordinateLexeme::End => Ok(None),
        CoordinateLexeme::Token { kind: CoordinateTokenKind::OpenParen, end: after_open } => {
            match coordinate_lexeme(text, after_open) {
                CoordinateLexeme::Token { kind: CoordinateTokenKind::Name, end } => {
                    match spec_argument_close(text, end, best_effort) {
                        Ok(_) => Ok(Some((after_open, end))),
                        Err(error) => Err(error),
                    }
                },
                _ => if best_effort {
                    Ok(None)
                } else {
                    Err(
                        unexpected_at(
                            text,
                            after_open,
                            CoordinateErrorKind::MissingArgumentName,
                            CoordinateErrorKind::ExpectedArgumentName,
                        ),
                    )
                },
            }
        },
        CoordinateLexeme::Token { kind: CoordinateTokenKind::Period, end: after_period } => {
            if best_effort {
                match coordinate_lexeme(text, after_period) {
                    CoordinateLexeme::Token { kind: CoordinateTokenKind::Name, end } => Ok(
                        Some((after_period, end)),
                    ),
                    _ => Ok(None),
                }
            } else {
                Err(
                    CoordinateFailure {
                        kind: CoordinateErrorKind::ExpectedOpenParen,
                        start: pos,
                        end: after_period,
                    },
                )
            }
        },
        CoordinateLexeme::Token { end, .. } => Err(
            CoordinateFailure { kind: CoordinateErrorKind::ExpectedOpenParen, start: pos, end },
        ),
        CoordinateLexeme::Error => if best_effort {
            Ok(None)
        } else {
            Err(
                CoordinateFailure {
                    kind: CoordinateErrorKind::LexerError,
                    start: pos,
                    end: pos + 1,
                },
            )
        },
    }
}

/// Where the argument that `spec_argument_name` reads ends: the position
/// that the text is read from after it. It matters only where an argument
/// was read strictly.
pub open spec fn spec_argument_end(text: Seq<char>, pos: int, best_effort: bool) -> int {
    match coordinate_lexeme(text, pos) {
        CoordinateLexeme::Token { kind: CoordinateTokenKind::OpenParen, end: after_open } => {
            match coordinate_lexeme(text, after_open) {
                CoordinateLexeme::Token { kind: CoordinateTokenKind::Name, end } => {
                    match spec_argument_close(text, end, best_effort) {
                        Ok(after) => after,
                        Err(_) => pos,
                    }
                },
                _ => pos,
            }
        },
        _ => pos,
    }
}

/// A coordinate as the positions of its names in the text.
pub enum CoordinateShape {
    Directive { name: (int, int) },
    DirectiveArgument { directive_name: (int, int), argument_name: (int, int) },
    Type { name: (int, int) },
    Member { parent_name: (int, int), member_name: (int, int) },
    Argument { parent_name: (int, int), member_name: (int, int), argument_name: (int, int) },
}

impl CoordinateShape {
    /// The coordinate with the names that stand at the positions.
    pub open spec fn of(self, text: Seq<char>) -> SchemaCoordinateView {
        match self {
            CoordinateShape::Directive { name } => SchemaCoordinateView::Directive {
                name: text.subrange(name.0, name.1),
            },
            CoordinateShape::DirectiveArgument { directive_name, argument_name } =>
                SchemaCoordinateView::DirectiveArgument {
                    directive_name: text.subrange(directive_name.0, directive_name.1),
                    argument_name: text.subrange(argument_name.0, argument_name.1),
                },
            CoordinateShape::Type { name } => SchemaCoordinateView::Type {
                name: text.subrange(name.0, name.1),
            },
            CoordinateShape::Member { parent_name, member_name } => SchemaCoordinateView::Member {
                parent_name: text.subrange(parent_name.0, parent_name.1),
                member_name: text.subrange(member_name.0, member_name.1),
            },
            CoordinateShape::Argument { parent_name, member_name, argument_name } =>
                SchemaCoordinateView::Argument {
                    parent_name: text.subrange(parent_name.0, parent_name.1),
                    member_name: text.subrange(member_name.0, member_name.1),
                    argument_name: text.subrange(argument_name.0, argument_name.1),
                },
        }
    }
}

/// The coordinate of a directive, read behind its `@` at `pos`, and the
/// position behind it.
pub open spec fn spec_directive_coordinate(text: Seq<char>, pos: int, best_effort: bool) -> Result<
    (CoordinateShape, int),
    CoordinateFailure,
> {
    match coordinate_lexeme(text, pos) {
        CoordinateLexeme::Token { kind: CoordinateTokenKind::Name, end } => {
            match spec_argument_name(text, end, best_effort) {
                Ok(None) => Ok((CoordinateShape::Directive { name: (pos, end) }, end)),
                Ok(Some(argument_name)) => Ok(
                    (
                        CoordinateShape::DirectiveArgument {
                            directive_name: (pos, end),
                            argument_name,
                        },
                        spec_argument_end(text, end, best_effort),
                    ),
                ),
                Err(error) => if best_effort {
                    Ok((CoordinateShape::Directive { name: (pos, end) }, end))
                } else {
                    Err(error)
                },
            }
        },
        _ => Err(
            unexpected_at(
                text,
                pos,
                CoordinateErrorKind::MissingDirectiveName,
                CoordinateErrorKind::ExpectedDirectiveName,
            ),
        ),
    }
}

/// The coordinate of a type or of one of its members, read behind the
/// name of the type, which stands at `name`; and the position behind it.
pub open spec fn spec_type_coordinate(
    text: Seq<char>,
    name: (int, int),
    best_effort: bool,
) -> Result<(CoordinateShape, int), CoordinateFailure> {
    let pos = name.1;
    match coordinate_lexeme(text, pos) {
        CoordinateLexeme::End => Ok((CoordinateShape::Type { name }, pos)),
        CoordinateLexeme::Token { kind: CoordinateTokenKind::Period, end: after_period } => {
            match coordinate_lexeme(text, after_period) {
                CoordinateLexeme::Token { kind: CoordinateTokenKind::Name, end } => {
                    let member_name = (after_period, end);
                    match spec_argument_name(text, end, best_effort) {
                        Ok(None) => Ok(
                            (CoordinateShape::Member { parent_name: name, member_name }, end),
                        ),
                        Ok(Some(argument_name)) => Ok(
                            (
                                CoordinateShape::Argument {
                                    parent_name: name,
                                    member_name,
                                    argument_name,
                                },
                                spec_argument_end(text, end, best_effort),
                            ),
                        ),
                        Err(error) => if best_effort {
                            Ok((CoordinateShape::Member { parent_name: name, member_name }, end))
                        } else {
                            Err(error)
                        },
                    }
                },
                _ => if best_effort {
                    Ok((CoordinateShape::Type { name }, pos))
                } else {
                    Err(
                        unexpected_at(
                            text,
                            after_period,
                            CoordinateErrorKind::MissingMemberName,
                            CoordinateErrorKind::ExpectedMemberName,
                        ),
                    )
                },
            }
        },
        CoordinateLexeme::Token { end, .. } => if best_effort {
            Ok((CoordinateShape::Type { name }, pos))
        } else {
            Err(CoordinateFailure { kind: CoordinateErrorKind::ExpectedPeriod, start: pos, end })
        },
        CoordinateLexeme::Error => Err(
            CoordinateFailure { kind: CoordinateErrorKind::LexerError, start: pos, end: pos + 1 },
        ),
    }
}

/// The coordinate that `text` holds. It begins with a name or with `@`.
/// Read strictly, nothing may follow it; with best effort what follows is
/// not looked at.
pub open spec fn spec_coordinate(text: Seq<char>, best_effort: bool) -> Result<
    CoordinateShape,
    CoordinateFailure,
> {
    let parsed = match coordinate_lexeme(text, 0) {
        CoordinateLexeme::Token { kind: CoordinateTokenKind::At, end } =>
            spec_directive_coordinate(text, end, best_effort),
        CoordinateLexeme::Token { kind: CoordinateTokenKind::Name, end } => spec_type_coordinate(
            text,
            (0, end),
            best_effort,
        ),
        _ => Err(
            unexpected_at(
                text,
                0,
                CoordinateErrorKind::EmptyInput,
                CoordinateErrorKind::ExpectedNameOrAt,
            ),
        ),
    };
    match parsed {
        Err(error) => Err(error),
        Ok((shape, after)) => if best_effort || coordinate_lexeme(text, after) is End {
            Ok(shape)
        } else {
            Err(
                unexpected_at(
                    text,
                    after,
                    CoordinateErrorKind::ExpectedEndOfInput,
                    CoordinateErrorKind::ExpectedEndOfInput,
                ),
            )
        },
    }
}

} // verus!

verus! {

/// What a message says before the characters it quotes.
pub open spec fn spec_error_lead(kind: CoordinateErrorKind) -> Seq<char> {
    match kind {
        CoordinateErrorKind::EmptyInput => "Expected Name or '@', got empty input."@,
        CoordinateErrorKind::LexerError => "Lexer error on: '"@,
        CoordinateErrorKind::ExpectedNameOrAt => "Expected Name or '@', got "@,
        CoordinateErrorKind::MissingDirectiveName => "Expected directive name"@,
        CoordinateErrorKind::ExpectedDirectiveName => "Expected directive name, got: '"@,
        CoordinateErrorKind::MissingArgumentName =>
            "Expected Argument Name, reached end of input."@,
        CoordinateErrorKind::ExpectedArgumentName => "Expected Argument Name, got: '"@,
        CoordinateErrorKind::ExpectedOpenParen => "Expected '(', got: '"@,
        CoordinateErrorKind::MissingCloseParen => "Expected ')' after ':', reached end of input."@,
        CoordinateErrorKind::ExpectedCloseParen => "Expected ')' after ':', got: '"@,
        CoordinateErrorKind::MissingColon =>
            "Expected ':' after argument name, reached end of input."@,
        CoordinateErrorKind::ExpectedColon => "Expected ':' after argument name, got: '"@,
        CoordinateErrorKind::MissingMemberName =>
            "Expected Name after '.', reached end of input."@,
        CoordinateErrorKind::ExpectedMemberName => "Expected Name after '.', got: '"@,
        CoordinateErrorKind::ExpectedPeriod => "Expected '.', got: '"@,
        CoordinateErrorKind::ExpectedEndOfInput => "Expected end of input, got: '"@,
    }
}

/// Whether a message closes the characters it quotes with a quote.
pub open spec fn spec_error_quotes(kind: CoordinateErrorKind) -> bool {
    match kind {
        CoordinateErrorKind::EmptyInput => false,
        CoordinateErrorKind::ExpectedNameOrAt => false,
        CoordinateErrorKind::MissingDirectiveName => false,
        CoordinateErrorKind::MissingArgumentName => false,
        CoordinateErrorKind::MissingCloseParen => false,
        CoordinateErrorKind::MissingColon => false,
        CoordinateErrorKind::MissingMemberName => false,
        _ => true,
    }
}

/// The message of an error of reading the coordinate `text`.
pub open spec fn spec_error_message(text: Seq<char>, error: CoordinateFailure) -> Seq<char> {
    spec_error_lead(error.kind) + text.subrange(error.start, error.end) + if spec_error_quotes(
        error.kind,
    ) {
        "'"@
    } else {
        Seq::<char>::empty()
    }
}

fn error_lead(kind: CoordinateErrorKind) -> (lead: &'static str)
    ensures
        lead@ == spec_error_lead(kind),
{
    match kind {
        CoordinateErrorKind::EmptyInput => "Expected Name or '@', got empty input.",
        CoordinateErrorKind::LexerError => "Lexer error on: '",
        CoordinateErrorKind::ExpectedNameOrAt => "Expected Name or '@', got ",
        CoordinateErrorKind::MissingDirectiveName => "Expected directive name",
        CoordinateErrorKind::ExpectedDirectiveName => "Expected directive name, got: '",
        CoordinateErrorKind::MissingArgumentName => "Expected Argument Name, reached end of input.",
        CoordinateErrorKind::ExpectedArgumentName => "Expected Argument Name, got: '",
        CoordinateErrorKind::ExpectedOpenParen => "Expected '(', got: '",
        CoordinateErrorKind::MissingCloseParen => "Expected ')' after ':', reached end of input.",
        CoordinateErrorKind::ExpectedCloseParen => "Expected ')' after ':', got: '",
        CoordinateErrorKind::MissingColon =>
            "Expected ':' after argument name, reached end of input.",
        CoordinateErrorKind::ExpectedColon => "Expected ':' after argument name, got: '",
        CoordinateErrorKind::MissingMemberName => "Expected Name after '.', reached end of input.",
        CoordinateErrorKind::ExpectedMemberName => "Expected Name after '.', got: '",
        CoordinateErrorKind::ExpectedPeriod => "Expected '.', got: '",
        CoordinateErrorKind::ExpectedEndOfInput => "Expected end of input, got: '",
    }
}

fn error_quotes(kind: CoordinateErrorKind) -> (quotes: bool)
    ensures
        quotes == spec_error_quotes(kind),
{
    match kind {
        CoordinateErrorKind::EmptyInput => false,
        CoordinateErrorKind::ExpectedNameOrAt => false,
        CoordinateErrorKind::MissingDirectiveName => false,
        CoordinateErrorKind::MissingArgumentName => false,
        CoordinateErrorKind::MissingCloseParen => false,
        CoordinateErrorKind::MissingColon => false,
        CoordinateErrorKind::MissingMemberName => false,
        _ => true,
    }
}

fn error_message(text: &str, error: CoordinateError) -> (message: String)
    requires
        error.start <= error.end <= text@.len(),
    ensures
        message@ == spec_error_message(text@, error@),
{
    let mut message = String::from_str(error_lead(error.kind));
    message.append(text.substring_char(error.start, error.end));
    if error_quotes(error.kind) {
        message.append("'");
    } else {
        assert(message@ + Seq::<char>::empty() =~= message@);
    }
    message
}

fn name_at(text: &str, name: (usize, usize)) -> (value: String)
    requires
        name.0 <= name.1 <= text@.len(),
    ensures
        value@ == text@.subrange(name.0 as int, name.1 as int),
{
    String::from_str(text.substring_char(name.0, name.1))
}

fn consume_argument_close(chars: &Vec<char>, pos: usize, best_effort: bool) -> (result: Result<
    usize,
    CoordinateError,
>)
    requires
        pos <= chars.len(),
    ensures
        match (result, spec_argument_close(chars@, pos as int, best_effort)) {
            (Ok(after), Ok(expected)) => after == expected && pos <= after <= chars.len(),
            (Err(error), Err(expected)) => error@ == expected && error.start <= error.end
                <= chars.len(),
            _ => false,
        },
{
    match next_coordinate_token(chars, pos) {
        CoordinateToken::Token { kind: CoordinateTokenKind::Colon, end: after_colon } => {
            match next_coordinate_token(chars, after_colon) {
                CoordinateToken::Token { kind: CoordinateTokenKind::CloseParen, end } => Ok(end),
                _ => if best_effort {
                    Ok(after_colon)
                } else {
                    Err(
                        unexpected(
                            chars,
                            after_colon,
                            CoordinateErrorKind::MissingCloseParen,
                            CoordinateErrorKind::ExpectedCloseParen,
                        ),
                    )
                },
            }
        },
        _ => if best_effort {
            Ok(pos)
        } else {
            Err(
                unexpected(
                    chars,
                    pos,
                    CoordinateErrorKind::MissingColon,
                    CoordinateErrorKind::ExpectedColon,
                ),
            )
        },
    }
}

fn parse_argument_name(chars: &Vec<char>, pos: usize, best_effort: bool) -> (result: Result<
    (Option<(usize, usize)>, usize),
    CoordinateError,
>)
    requires
        pos <= chars.len(),
    ensures
        match (result, spec_argument_name(chars@, pos as int, best_effort)) {
            (Ok((None, after)), Ok(None)) => after <= chars.len(),
            (Ok((Some(name), after)), Ok(Some(expected))) => name.0 == expected.0 && name.1
                == expected.1 && name.0 <= name.1 <= chars.len() && after <= chars.len() && after
                == spec_argument_end(chars@, pos as int, best_effort),
            (Err(error), Err(expected)) => error@ == expected && error.start <= error.end
                <= chars.len(),
            _ => false,
        },
{
    match next_coordinate_token(chars, pos) {
        CoordinateToken::End => Ok((None, pos)),
        CoordinateToken::Token { kind: CoordinateTokenKind::OpenParen, end: after_open } => {
            match next_coordinate_token(chars, after_open) {
                CoordinateToken::Token { kind: CoordinateTokenKind::Name, end } => {
                    match consume_argument_close(chars, end, best_effort) {
                        Ok(after) => Ok((Some((after_open, end)), after)),
                        Err(error) => Err(error),
                    }
                },
                _ => if best_effort {
                    Ok((None, pos))
                } else {
                    Err(
                        unexpected(
                            chars,
                            after_open,
                            CoordinateErrorKind::MissingArgumentName,
                            CoordinateErrorKind::ExpectedArgumentName,
                        ),
                    )
                },
            }
        },
        CoordinateToken::Token { kind: CoordinateTokenKind::Period, end: after_period } => {
            if best_effort {
                match next_coordinate_token(chars, after_period) {
                    CoordinateToken::Token { kind: CoordinateTokenKind::Name, end } => Ok(
                        (Some((after_period, end)), pos),
                    ),
                    _ => Ok((None, pos)),
                }
            } else {
                Err(
                    CoordinateError {
                        kind: CoordinateErrorKind::ExpectedOpenParen,
                        start: pos,
                        end: after_period,
                    },
                )
            }
        },
        CoordinateToken::Token { end, .. } => Err(
            CoordinateError { kind: CoordinateErrorKind::ExpectedOpenParen, start: pos, end },
        ),
        CoordinateToken::Error => if best_effort {
            Ok((None, pos))
        } else {
            Err(
                CoordinateError {
                    kind: CoordinateErrorKind::LexerError,
                    start: pos,
                    end: pos + 1,
                },
            )
        },
    }
}

fn parse_directive_coordinate(text: &str, chars: &Vec<char>, pos: usize, best_effort: bool) -> (result:
    Result<(SchemaCoordinate, usize), CoordinateError>)
    requires
        chars@ == text@,
        pos <= chars.len(),
    ensures
        match (result, spec_directive_coordinate(chars@, pos as int, best_effort)) {
            (Ok((coordinate, after)), Ok((shape, expected))) => coordinate.deep_view() == shape.of(
                chars@,
            ) && after == expected && after <= chars.len(),
            (Err(error), Err(expected)) => error@ == expected && error.start <= error.end
                <= chars.len(),
            _ => false,
        },
{
    match next_coordinate_token(chars, pos) {
        CoordinateToken::Token { kind: CoordinateTokenKind::Name, end } => {
            let name = name_at(text, (pos, end));
            match parse_argument_name(chars, end, best_effort) {
                Ok((None, _)) => Ok((SchemaCoordinate::Directive { name }, end)),
                Ok((Some(argument), after)) => Ok(
                    (
                        SchemaCoordinate::DirectiveArgument {
                            directive_name: name,
                            argument_name: name_at(text, argument),
                        },
                        after,
                    ),
                ),
                Err(error) => if best_effort {
                    Ok((SchemaCoordinate::Directive { name }, end))
                } else {
                    Err(error)
                },
            }
        },
        _ => Err(
            unexpected(
                chars,
                pos,
                CoordinateErrorKind::MissingDirectiveName,
                CoordinateErrorKind::ExpectedDirectiveName,
            ),
        ),
    }
}

fn parse_type_coordinate(
    text: &str,
    chars: &Vec<char>,
    name: (usize, usize),
    best_effort: bool,
) -> (result: Result<(SchemaCoordinate, usize), CoordinateError>)
    requires
        chars@ == text@,
        name.0 <= name.1 <= chars.len(),
    ensures
        match (
            result,
            spec_type_coordinate(chars@, (name.0 as int, name.1 as int), best_effort),
        ) {
            (Ok((coordinate, after)), Ok((shape, expected))) => coordinate.deep_view() == shape.of(
                chars@,
            ) && after == expected && after <= chars.len(),
            (Err(error), Err(expected)) => error@ == expected && error.start <= error.end
                <= chars.len(),
            _ => false,
        },
{
    let pos = name.1;
    match next_coordinate_token(chars, pos) {
        CoordinateToken::End => Ok((SchemaCoordinate::Type { name: name_at(text, name) }, pos)),
        CoordinateToken::Token { kind: CoordinateTokenKind::Period, end: after_period } => {
            match next_coordinate_token(chars, after_period) {
                CoordinateToken::Token { kind: CoordinateTokenKind::Name, end } => {
                    let parent_name = name_at(text, name);
                    let member_name = name_at(text, (after_period, end));
                    match parse_argument_name(chars, end, best_effort) {
                        Ok((None, _)) => Ok(
                            (SchemaCoordinate::Member { parent_name, member_name }, end),
                        ),
                        Ok((Some(argument), after)) => Ok(
                            (
                                SchemaCoordinate::Argument {
                                    parent_name,
                                    member_name,
                                    argument_name: name_at(text, argument),
                                },
                                after,
                            ),
                        ),
                        Err(error) => if best_effort {
                            Ok((SchemaCoordinate::Member { parent_name, member_name }, end))
                        } else {
                            Err(error)
                        },
                    }
                },
                _ => if best_effort {
                    Ok((SchemaCoordinate::Type { name: name_at(text, name) }, pos))
                } else {
                    Err(
                        unexpected(
                            chars,
                            after_period,
                            CoordinateErrorKind::MissingMemberName,
                            CoordinateErrorKind::ExpectedMemberName,
                        ),
                    )
                },
            }
        },
        CoordinateToken::Token { end, .. } => if best_effort {
            Ok((SchemaCoordinate::Type { name: name_at(text, name) }, pos))
        } else {
            Err(CoordinateError { kind: CoordinateErrorKind::ExpectedPeriod, start: pos, end })
        },
        CoordinateToken::Error => Err(
            CoordinateError { kind: CoordinateErrorKind::LexerError, start: pos, end: pos + 1 },
        ),
    }
}

/// What reading the coordinate `input` gives: the coordinate, or the
/// message of the error. White space around the coordinate does not
/// count.
pub open spec fn spec_parse_schema_coordinate_impl(input: Seq<char>, best_effort: bool) -> Result<
    SchemaCoordinateView,
    Seq<char>,
> {
    let text = spec_trim(input);
    match spec_coordinate(text, best_effort) {
        Ok(shape) => Ok(shape.of(text)),
        Err(error) => Err(spec_error_message(text, error)),
    }
}

fn parse_schema_coordinate_impl(input: &str, best_effort: bool) -> (result: Result<
    SchemaCoordinate,
    String,
>)
    ensures
        match (result, spec_parse_schema_coordinate_impl(input@, best_effort)) {
            (Ok(coordinate), Ok(expected)) => coordinate.deep_view() == expected,
            (Err(message), Err(expected)) => message@ == expected,
            _ => false,
        },
{
    let text = trim(input);
    let chars = chars_of(text);
    let parsed = match next_coordinate_token(&chars, 0) {
        CoordinateToken::Token { kind: CoordinateTokenKind::At, end } =>
            parse_directive_coordinate(text, &chars, end, best_effort),
        CoordinateToken::Token { kind: CoordinateTokenKind::Name, end } => parse_type_coordinate(
            text,
            &chars,
            (0, end),
            best_effort,
        ),
        _ => Err(
            unexpected(
                &chars,
                0,
                CoordinateErrorKind::EmptyInput,
                CoordinateErrorKind::ExpectedNameOrAt,
            ),
        ),
    };
    match parsed {
        Err(error) => Err(error_message(text, error)),
        Ok((coordinate, after)) => {
            if best_effort {
                return Ok(coordinate);
            }
            match next_coordinate_token(&chars, after) {
                CoordinateToken::End => Ok(coordinate),
                _ => Err(
                    error_message(
                        text,
                        unexpected(
                            &chars,
                            after,
                            CoordinateErrorKind::ExpectedEndOfInput,
                            CoordinateErrorKind::ExpectedEndOfInput,
                        ),
                    ),
                ),
            }
        },
    }
}

/// What reading a coordinate strictly gives.
pub open spec fn spec_parse_schema_coordinate(input: Seq<char>) -> Result<
    SchemaCoordinateView,
    Seq<char>,
> {
    match spec_parse_schema_coordinate_impl(input, false) {
        Ok(coordinate) => Ok(coordinate),
        Err(error) => Err(
            "Failed to parse Schema Coordinate '"@ + input + "' with error: "@ + error,
        ),
    }
}

/// What reading a coordinate with best effort gives.
pub open spec fn spec_parse_schema_coordinate_best_effort(input: Seq<char>) -> Result<
    SchemaCoordinateView,
    Seq<char>,
> {
    match spec_parse_schema_coordinate_impl(input, true) {
        Ok(coordinate) => Ok(coordinate),
        Err(error) => Err(
            "Failed a best-effort parse of Schema Coordinate '"@ + input + "' with error: "@
                + error,
        ),
    }
}

/// Reads a schema coordinate as the GraphQL specification writes it.
pub fn parse_schema_coordinate(input: &str) -> (result: Result<SchemaCoordinate, String>)
    ensures
        match (result, spec_parse_schema_coordinate(input@)) {
            (Ok(coordinate), Ok(expected)) => coordinate.deep_view() == expected,
            (Err(message), Err(expected)) => message@ == expected,
            _ => false,
        },
{
    match parse_schema_coordinate_impl(input, false) {
        Ok(coordinate) => Ok(coordinate),
        Err(error) => {
            let mut message = String::from_str("Failed to parse Schema Coordinate '");
            message.append(input);
            message.append("' with error: ");
            message.append(error.as_str());
            Err(message)
        },
    }
}

/// Reads a schema coordinate and takes what was most likely meant where
/// it is not written as the GraphQL specification writes it: a third name
/// behind a period is an argument, and what cannot be read behind a name
/// is left aside.
pub fn parse_schema_coordinate_best_effort(input: &str) -> (result: Result<
    SchemaCoordinate,
    String,
>)
    ensures
        match (result, spec_parse_schema_coordinate_best_effort(input@)) {
            (Ok(coordinate), Ok(expected)) => coordinate.deep_view() == expected,
            (Err(message), Err(expected)) => message@ == expected,
            _ => false,
        },
{
    match parse_schema_coordinate_impl(input, true) {
        Ok(coordinate) => Ok(coordinate),
        Err(error) => {
            let mut message = String::from_str(
                "Failed a best-effort parse of Schema Coordinate '",
            );
            message.append(input);
            message.append("' with error: ");
            message.append(error.as_str());
            Err(message)
        },
    }
}

impl std::str::FromStr for SchemaCoordinate {
    type Err = String;

    /// Reads a coordinate with best effort.
    fn from_str(s: &str) -> (result: Result<Self, Self::Err>)
        ensures
            match (result, spec_parse_schema_coordinate_best_effort(s@)) {
                (Ok(coordinate), Ok(expected)) => coordinate.deep_view() == expected,
                (Err(message), Err(expected)) => message@ == expected,
                _ => false,
            },
    {
        parse_schema_coordinate_best_effort(s)
    }
}

} // verus!

verus! {

impl SchemaCoordinateView {
    /// Whether the coordinate points at a directive or at an argument of
    /// one.
    pub open spec fn is_directive(self) -> bool {
        self is Directive || self is DirectiveArgument
    }

    /// The names of the coordinate, from the outermost to the innermost.
    pub open spec fn parts(self) -> Seq<Seq<char>> {
        match self {
            SchemaCoordinateView::Directive { name } => seq![name],
            SchemaCoordinateView::DirectiveArgument { directive_name, argument_name } => seq![
                directive_name,
                argument_name,
            ],
            SchemaCoordinateView::Type { name } => seq![name],
            SchemaCoordinateView::Member { parent_name, member_name } => seq![
                parent_name,
                member_name,
            ],
            SchemaCoordinateView::Argument { parent_name, member_name, argument_name } => seq![
                parent_name,
                member_name,
                argument_name,
            ],
        }
    }
}

/// How one list of names stands to another: the first name in which they
/// differ decides, and a list comes before every list that it begins.
pub open spec fn names_order(left: Seq<Seq<char>>, right: Seq<Seq<char>>) -> Order
    decreases left.len(),
{
    if left.len() == 0 {
        if right.len() == 0 {
            Order::Same
        } else {
            Order::Before
        }
    } else if right.len() == 0 {
        Order::After
    } else {
        match text_order(left[0], right[0]) {
            Order::Same => names_order(left.skip(1), right.skip(1)),
            decided => decided,
        }
    }
}

/// How one coordinate stands to another: directives come before types;
/// among directives and among types the names decide, so that a type
/// comes right before its members and a member right before its
/// arguments.
pub open spec fn coordinate_order(left: SchemaCoordinateView, right: SchemaCoordinateView) -> Order {
    if left.is_directive() && !right.is_directive() {
        Order::Before
    } else if !left.is_directive() && right.is_directive() {
        Order::After
    } else {
        names_order(left.parts(), right.parts())
    }
}

fn compare_names(left: &Vec<String>, right: &Vec<String>) -> (order: Order)
    ensures
        order == names_order(left.deep_view(), right.deep_view()),
{
    let ghost a = left.deep_view();
    let ghost b = right.deep_view();
    let mut i: usize = 0;
    proof {
        assert(a.skip(0) =~= a);
        assert(b.skip(0) =~= b);
    }
    loop
        invariant
            i <= left.len(),
            i <= right.len(),
            a == left.deep_view(),
            b == right.deep_view(),
            names_order(a, b) == names_order(a.skip(i as int), b.skip(i as int)),
        decreases left.len() - i,
    {
        if i >= left.len() {
            return if i >= right.len() {
                Order::Same
            } else {
                Order::Before
            };
        }
        if i >= right.len() {
            return Order::After;
        }
        match compare_texts(left[i].as_str(), right[i].as_str()) {
            Order::Same => {},
            decided => {
                return decided;
            },
        }
        proof {
            assert(a.skip(i as int).skip(1) =~= a.skip(i as int + 1));
            assert(b.skip(i as int).skip(1) =~= b.skip(i as int + 1));
        }
        i += 1;
    }
}

impl SchemaCoordinate {
    pub fn is_directive(&self) -> (directive: bool)
        ensures
            directive == self.deep_view().is_directive(),
    {
        match self {
            SchemaCoordinate::Directive { .. } => true,
            SchemaCoordinate::DirectiveArgument { .. } => true,
            _ => false,
        }
    }

    /// The names of the coordinate, from the outermost to the innermost.
    pub fn parts(&self) -> (names: Vec<String>)
        ensures
            names.deep_view() == self.deep_view().parts(),
    {
        let mut names: Vec<String> = Vec::new();
        match self {
            SchemaCoordinate::Directive { name } => {
                names.push(name.clone());
            },
            SchemaCoordinate::DirectiveArgument { directive_name, argument_name } => {
                names.push(directive_name.clone());
                names.push(argument_name.clone());
            },
            SchemaCoordinate::Type { name } => {
                names.push(name.clone());
            },
            SchemaCoordinate::Member { parent_name, member_name } => {
                names.push(parent_name.clone());
                names.push(member_name.clone());
            },
            SchemaCoordinate::Argument { parent_name, member_name, argument_name } => {
                names.push(parent_name.clone());
                names.push(member_name.clone());
                names.push(argument_name.clone());
            },
        }
        proof {
            assert(names.deep_view() =~= self.deep_view().parts());
        }
        names
    }

    /// Says how this coordinate stands to `other` in the order of
    /// coordinates.
    pub fn compare(&self, other: &SchemaCoordinate) -> (order: Order)
        ensures
            order == coordinate_order(self.deep_view(), other.deep_view()),
    {
        if self.is_directive() && !other.is_directive() {
            Order::Before
        } else if !self.is_directive() && other.is_directive() {
            Order::After
        } else {
            compare_names(&self.parts(), &other.parts())
        }
    }
}

} // verus!
