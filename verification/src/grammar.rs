//! The grammar of types, constant values, directives and field
//! definitions, as functions from a text and a position to what stands
//! there.
//!
//! Every function takes the characters of the text, the byte offset at
//! which the text begins, and the character position to read from. It
//! yields what it read and the position after it, or the error at the
//! first token that does not fit.

use vstd::prelude::*;
use crate::lexer::{next_lexeme, Lexeme, TokenKind};
use crate::location::Span;
use crate::source::offset_at;
use crate::syntax::{
    ConstantArgumentListView, ConstantArgumentView, ConstantDirectiveView, ConstantValueView,
    DefaultValueView, FieldDefinitionView, IdentifierView, InputValueDefinitionListView,
    InputValueDefinitionView, StringNodeView, SyntaxError, SyntaxErrorKind, TypeAnnotationView,
};

verus! {

/// The result of reading one construct: its value and the position after
/// it, or the error.
pub type Parsed<T> = Result<(T, int), SyntaxError>;

/// The span of the characters from position `from` up to position `to`.
pub open spec fn span_at(text: Seq<char>, base: u32, from: int, to: int) -> Span {
    Span { start: offset_at(text, base, from) as u32, end: offset_at(text, base, to) as u32 }
}

/// The error for meeting the token `found` where `expected` was looked
/// for. Text that forms no token is reported as such, whatever was looked
/// for.
pub open spec fn error_at(
    text: Seq<char>,
    base: u32,
    found: Lexeme,
    expected: SyntaxErrorKind,
) -> SyntaxError {
    SyntaxError {
        kind: if found.kind.spec_is_error() {
            SyntaxErrorKind::Malformed(found.kind)
        } else {
            expected
        },
        span: span_at(text, base, found.start, found.end),
    }
}

/// The error of a construct that read nothing. No text leads here: every
/// construct of this grammar begins with a token.
pub open spec fn stuck(text: Seq<char>, base: u32, pos: int) -> SyntaxError {
    error_at(text, base, next_lexeme(text, pos), SyntaxErrorKind::ExpectedName)
}

pub open spec fn lexeme_text(text: Seq<char>, token: Lexeme) -> Seq<char> {
    text.subrange(token.start, token.end)
}

/// The next token, if it is of kind `kind`.
pub open spec fn spec_expect(text: Seq<char>, base: u32, pos: int, kind: TokenKind) -> Result<
    Lexeme,
    SyntaxError,
> {
    let token = next_lexeme(text, pos);
    if token.kind == kind {
        Ok(token)
    } else {
        Err(error_at(text, base, token, SyntaxErrorKind::Expected(kind)))
    }
}

/// A name.
pub open spec fn spec_identifier(text: Seq<char>, base: u32, pos: int) -> Parsed<IdentifierView> {
    let token = next_lexeme(text, pos);
    if token.kind == TokenKind::Name {
        Ok(
            (
                IdentifierView {
                    span: span_at(text, base, token.start, token.end),
                    value: lexeme_text(text, token),
                },
                token.end,
            ),
        )
    } else {
        Err(error_at(text, base, token, SyntaxErrorKind::ExpectedName))
    }
}

/// Names separated by `&`, at least one.
pub open spec fn spec_interface_names(
    text: Seq<char>,
    base: u32,
    pos: int,
    names: Seq<IdentifierView>,
) -> Parsed<Seq<IdentifierView>>
    decreases text.len() - pos,
{
    match spec_identifier(text, base, pos) {
        Err(error) => Err(error),
        Ok((name, end)) => {
            let token = next_lexeme(text, end);
            if token.kind == TokenKind::Ampersand && pos < token.end <= text.len() {
                spec_interface_names(text, base, token.end, names.push(name))
            } else {
                Ok((names.push(name), end))
            }
        },
    }
}

/// Nothing, or the word `implements`, an optional `&`, and names separated
/// by `&`.
pub open spec fn spec_implements(text: Seq<char>, base: u32, pos: int) -> Parsed<
    Seq<IdentifierView>,
> {
    let word = next_lexeme(text, pos);
    if word.kind == TokenKind::Name && lexeme_text(text, word) == "implements"@ {
        let lead = next_lexeme(text, word.end);
        let first = if lead.kind == TokenKind::Ampersand {
            lead.end
        } else {
            word.end
        };
        spec_interface_names(text, base, first, Seq::empty())
    } else {
        Ok((Seq::empty(), pos))
    }
}

/// The end of the text: nothing but ignored characters is left.
pub open spec fn spec_end_of_input(text: Seq<char>, base: u32, pos: int) -> Option<SyntaxError> {
    match spec_expect(text, base, pos, TokenKind::EndOfFile) {
        Ok(_) => None,
        Err(error) => Some(error),
    }
}

/// A type without a `!` after it: a name or a type in square brackets.
pub open spec fn spec_type_core(text: Seq<char>, base: u32, pos: int) -> Parsed<
    TypeAnnotationView,
>
    decreases text.len() - pos, 0nat,
{
    let token = next_lexeme(text, pos);
    if token.kind == TokenKind::Name {
        Ok(
            (
                TypeAnnotationView::Named(
                    IdentifierView {
                        span: span_at(text, base, token.start, token.end),
                        value: lexeme_text(text, token),
                    },
                ),
                token.end,
            ),
        )
    } else if token.kind == TokenKind::OpenBracket {
        if pos < token.end <= text.len() {
            match spec_type(text, base, token.end) {
                Err(error) => Err(error),
                Ok((inner, end)) => match spec_expect(text, base, end, TokenKind::CloseBracket) {
                    Err(error) => Err(error),
                    Ok(close) => Ok(
                        (
                            TypeAnnotationView::List {
                                span: span_at(text, base, token.start, close.end),
                                inner: Box::new(inner),
                            },
                            close.end,
                        ),
                    ),
                },
            }
        } else {
            Err(stuck(text, base, pos))
        }
    } else {
        Err(error_at(text, base, token, SyntaxErrorKind::ExpectedType))
    }
}

/// A type: a name or a type in square brackets, with an optional `!`
/// after it.
pub open spec fn spec_type(text: Seq<char>, base: u32, pos: int) -> Parsed<TypeAnnotationView>
    decreases text.len() - pos, 1nat,
{
    match spec_type_core(text, base, pos) {
        Err(error) => Err(error),
        Ok((annotation, end)) => {
            let mark = next_lexeme(text, end);
            if mark.kind == TokenKind::Exclamation {
                Ok(
                    (
                        TypeAnnotationView::NonNull {
                            span: span_at(text, base, next_lexeme(text, pos).start, mark.end),
                            inner: Box::new(annotation),
                        },
                        mark.end,
                    ),
                )
            } else {
                Ok((annotation, end))
            }
        },
    }
}

/// What a name stands for as a value: `true`, `false`, `null`, or an enum
/// value.
pub open spec fn spec_name_value(word: Seq<char>, span: Span) -> ConstantValueView {
    if word == "true"@ {
        ConstantValueView::Boolean { span, value: true }
    } else if word == "false"@ {
        ConstantValueView::Boolean { span, value: false }
    } else if word == "null"@ {
        ConstantValueView::Null { span }
    } else {
        ConstantValueView::Enum { span, name: word }
    }
}

/// A constant value: a number, a string, a name, a list of values in
/// square brackets, or named values in braces.
pub open spec fn spec_value(text: Seq<char>, base: u32, pos: int) -> Parsed<ConstantValueView>
    decreases text.len() - pos, 0nat,
{
    let token = next_lexeme(text, pos);
    let span = span_at(text, base, token.start, token.end);
    match token.kind {
        TokenKind::IntegerLiteral => Ok(
            (ConstantValueView::Int { span, text: lexeme_text(text, token) }, token.end),
        ),
        TokenKind::FloatLiteral => Ok(
            (ConstantValueView::Float { span, text: lexeme_text(text, token) }, token.end),
        ),
        TokenKind::StringLiteral => Ok(
            (
                ConstantValueView::String(
                    StringNodeView { span, value: text.subrange(token.start + 1, token.end - 1) },
                ),
                token.end,
            ),
        ),
        TokenKind::Name => Ok((spec_name_value(lexeme_text(text, token), span), token.end)),
        TokenKind::OpenBracket => if pos < token.end <= text.len() {
            match spec_list_items(text, base, token.end, Seq::empty()) {
                Err(error) => Err(error),
                Ok((items, end)) => Ok(
                    (
                        ConstantValueView::List {
                            span: span_at(text, base, token.start, end),
                            items,
                        },
                        end,
                    ),
                ),
            }
        } else {
            Err(stuck(text, base, pos))
        },
        TokenKind::OpenBrace => if pos < token.end <= text.len() {
            match spec_fields(text, base, token.end, TokenKind::CloseBrace, Seq::empty()) {
                Err(error) => Err(error),
                Ok((fields, end)) => Ok(
                    (
                        ConstantValueView::Object {
                            span: span_at(text, base, token.start, end),
                            fields,
                        },
                        end,
                    ),
                ),
            }
        } else {
            Err(stuck(text, base, pos))
        },
        _ => Err(error_at(text, base, token, SyntaxErrorKind::ExpectedConstantValue)),
    }
}

/// The items of a list and its closing bracket; `items` holds the items
/// read so far.
pub open spec fn spec_list_items(
    text: Seq<char>,
    base: u32,
    pos: int,
    items: Seq<ConstantValueView>,
) -> Parsed<Seq<ConstantValueView>>
    decreases text.len() - pos, 1nat,
{
    let token = next_lexeme(text, pos);
    if token.kind == TokenKind::CloseBracket {
        Ok((items, token.end))
    } else {
        match spec_value(text, base, pos) {
            Err(error) => Err(error),
            Ok((item, end)) => if pos < end <= text.len() {
                spec_list_items(text, base, end, items.push(item))
            } else {
                Err(stuck(text, base, pos))
            },
        }
    }
}

/// Named values (`name: value`) and the token of kind `closer` that ends
/// them; `fields` holds those read so far.
pub open spec fn spec_fields(
    text: Seq<char>,
    base: u32,
    pos: int,
    closer: TokenKind,
    fields: Seq<ConstantArgumentView>,
) -> Parsed<Seq<ConstantArgumentView>>
    decreases text.len() - pos, 1nat,
{
    let token = next_lexeme(text, pos);
    if token.kind == closer {
        Ok((fields, token.end))
    } else {
        match spec_identifier(text, base, pos) {
            Err(error) => Err(error),
            Ok((name, after_name)) => match spec_expect(
                text,
                base,
                after_name,
                TokenKind::Colon,
            ) {
                Err(error) => Err(error),
                Ok(colon) => if pos < colon.end <= text.len() {
                    match spec_value(text, base, colon.end) {
                        Err(error) => Err(error),
                        Ok((value, end)) => if pos < end <= text.len() {
                            spec_fields(
                                text,
                                base,
                                end,
                                closer,
                                fields.push(
                                    ConstantArgumentView {
                                        span: Span {
                                            start: name.span.start,
                                            end: value.span().end,
                                        },
                                        name,
                                        value,
                                    },
                                ),
                            )
                        } else {
                            Err(stuck(text, base, pos))
                        },
                    }
                } else {
                    Err(stuck(text, base, pos))
                },
            },
        }
    }
}

/// Nothing, or named values in parentheses, at least one.
pub open spec fn spec_arguments(text: Seq<char>, base: u32, pos: int) -> Parsed<
    Option<ConstantArgumentListView>,
> {
    let open = next_lexeme(text, pos);
    if open.kind == TokenKind::OpenParen {
        match spec_fields(text, base, open.end, TokenKind::CloseParen, Seq::empty()) {
            Err(error) => Err(error),
            Ok((items, end)) => if items.len() == 0 {
                Err(
                    error_at(
                        text,
                        base,
                        next_lexeme(text, open.end),
                        SyntaxErrorKind::ExpectedName,
                    ),
                )
            } else {
                Ok(
                    (
                        Some(
                            ConstantArgumentListView {
                                span: span_at(text, base, open.start, end),
                                items,
                            },
                        ),
                        end,
                    ),
                )
            },
        }
    } else {
        Ok((None, pos))
    }
}

/// A directive: `@`, a name, and its arguments if it has any.
pub open spec fn spec_directive(text: Seq<char>, base: u32, pos: int) -> Parsed<
    ConstantDirectiveView,
> {
    match spec_expect(text, base, pos, TokenKind::At) {
        Err(error) => Err(error),
        Ok(at) => match spec_identifier(text, base, at.end) {
            Err(error) => Err(error),
            Ok((name, after_name)) => match spec_arguments(text, base, after_name) {
                Err(error) => Err(error),
                Ok((arguments, end)) => Ok(
                    (
                        ConstantDirectiveView {
                            span: span_at(text, base, at.start, end),
                            name,
                            arguments,
                        },
                        end,
                    ),
                ),
            },
        },
    }
}

/// Directives one after another, as many as there are; `directives` holds
/// those read so far.
pub open spec fn spec_directives(
    text: Seq<char>,
    base: u32,
    pos: int,
    directives: Seq<ConstantDirectiveView>,
) -> Parsed<Seq<ConstantDirectiveView>>
    decreases text.len() - pos,
{
    let token = next_lexeme(text, pos);
    if token.kind == TokenKind::At {
        match spec_directive(text, base, pos) {
            Err(error) => Err(error),
            Ok((directive, end)) => if pos < end <= text.len() {
                spec_directives(text, base, end, directives.push(directive))
            } else {
                Err(stuck(text, base, pos))
            },
        }
    } else {
        Ok((directives, pos))
    }
}

/// Nothing, or `=` and a constant value.
pub open spec fn spec_default_value(text: Seq<char>, base: u32, pos: int) -> Parsed<
    Option<DefaultValueView>,
> {
    let equals = next_lexeme(text, pos);
    if equals.kind == TokenKind::Equals {
        match spec_value(text, base, equals.end) {
            Err(error) => Err(error),
            Ok((value, end)) => Ok(
                (
                    Some(
                        DefaultValueView { span: span_at(text, base, equals.start, end), value },
                    ),
                    end,
                ),
            ),
        }
    } else {
        Ok((None, pos))
    }
}

/// The definition of an argument: an optional description, a name, `:`, a
/// type, an optional default value, and directives.
pub open spec fn spec_input_value(text: Seq<char>, base: u32, pos: int) -> Parsed<
    InputValueDefinitionView,
> {
    let first = next_lexeme(text, pos);
    let described = first.kind == TokenKind::StringLiteral;
    let description = if described {
        Some(
            StringNodeView {
                span: span_at(text, base, first.start, first.end),
                value: text.subrange(first.start + 1, first.end - 1),
            },
        )
    } else {
        None
    };
    match spec_identifier(
        text,
        base,
        if described {
            first.end
        } else {
            pos
        },
    ) {
        Err(error) => Err(error),
        Ok((name, after_name)) => match spec_expect(text, base, after_name, TokenKind::Colon) {
            Err(error) => Err(error),
            Ok(colon) => match spec_type(text, base, colon.end) {
                Err(error) => Err(error),
                Ok((type_, after_type)) => match spec_default_value(text, base, after_type) {
                    Err(error) => Err(error),
                    Ok((default_value, after_default)) => match spec_directives(
                        text,
                        base,
                        after_default,
                        Seq::empty(),
                    ) {
                        Err(error) => Err(error),
                        Ok((directives, end)) => Ok(
                            (
                                InputValueDefinitionView {
                                    span: span_at(text, base, first.start, end),
                                    description,
                                    name,
                                    type_,
                                    default_value,
                                    directives,
                                },
                                end,
                            ),
                        ),
                    },
                },
            },
        },
    }
}

/// Argument definitions and the closing parenthesis; `items` holds those
/// read so far.
pub open spec fn spec_input_values(
    text: Seq<char>,
    base: u32,
    pos: int,
    items: Seq<InputValueDefinitionView>,
) -> Parsed<Seq<InputValueDefinitionView>>
    decreases text.len() - pos,
{
    let token = next_lexeme(text, pos);
    if token.kind == TokenKind::CloseParen {
        Ok((items, token.end))
    } else {
        match spec_input_value(text, base, pos) {
            Err(error) => Err(error),
            Ok((item, end)) => if pos < end <= text.len() {
                spec_input_values(text, base, end, items.push(item))
            } else {
                Err(stuck(text, base, pos))
            },
        }
    }
}

/// Nothing, or argument definitions in parentheses, at least one.
pub open spec fn spec_arguments_definition(text: Seq<char>, base: u32, pos: int) -> Parsed<
    Option<InputValueDefinitionListView>,
> {
    let open = next_lexeme(text, pos);
    if open.kind == TokenKind::OpenParen {
        match spec_input_values(text, base, open.end, Seq::empty()) {
            Err(error) => Err(error),
            Ok((items, end)) => if items.len() == 0 {
                Err(
                    error_at(
                        text,
                        base,
                        next_lexeme(text, open.end),
                        SyntaxErrorKind::ExpectedName,
                    ),
                )
            } else {
                Ok(
                    (
                        Some(
                            InputValueDefinitionListView {
                                span: span_at(text, base, open.start, end),
                                items,
                            },
                        ),
                        end,
                    ),
                )
            },
        }
    } else {
        Ok((None, pos))
    }
}

/// The definition of a field: a name, its argument definitions if it has
/// any, `:`, a type, and directives. It carries no description.
pub open spec fn spec_field_definition(text: Seq<char>, base: u32, pos: int) -> Parsed<
    FieldDefinitionView,
> {
    match spec_identifier(text, base, pos) {
        Err(error) => Err(error),
        Ok((name, after_name)) => match spec_arguments_definition(text, base, after_name) {
            Err(error) => Err(error),
            Ok((arguments, after_arguments)) => match spec_expect(
                text,
                base,
                after_arguments,
                TokenKind::Colon,
            ) {
                Err(error) => Err(error),
                Ok(colon) => match spec_type(text, base, colon.end) {
                    Err(error) => Err(error),
                    Ok((type_, after_type)) => match spec_directives(
                        text,
                        base,
                        after_type,
                        Seq::empty(),
                    ) {
                        Err(error) => Err(error),
                        Ok((directives, end)) => Ok(
                            (
                                FieldDefinitionView {
                                    span: Span {
                                        start: name.span.start,
                                        end: offset_at(text, base, end) as u32,
                                    },
                                    name,
                                    type_,
                                    arguments,
                                    directives,
                                    description: None,
                                },
                                end,
                            ),
                        ),
                    },
                },
            },
        },
    }
}

/// What a text that holds one name stands for. What follows the name is
/// not looked at.
pub open spec fn spec_parse_identifier(text: Seq<char>, base: u32) -> Result<
    IdentifierView,
    SyntaxError,
> {
    match spec_identifier(text, base, 0) {
        Err(error) => Err(error),
        Ok((name, _)) => Ok(name),
    }
}

/// What a text that holds a name and the interfaces it implements, and
/// nothing else, stands for.
pub open spec fn spec_parse_identifier_and_implements_interfaces(
    text: Seq<char>,
    base: u32,
) -> Result<(IdentifierView, Seq<IdentifierView>), SyntaxError> {
    match spec_identifier(text, base, 0) {
        Err(error) => Err(error),
        Ok((name, after_name)) => match spec_implements(text, base, after_name) {
            Err(error) => Err(error),
            Ok((interfaces, end)) => match spec_end_of_input(text, base, end) {
                Some(error) => Err(error),
                None => Ok((name, interfaces)),
            },
        },
    }
}

/// What a text that holds a type and nothing else stands for.
pub open spec fn spec_parse_type(text: Seq<char>, base: u32) -> Result<
    TypeAnnotationView,
    SyntaxError,
> {
    match spec_type(text, base, 0) {
        Err(error) => Err(error),
        Ok((annotation, end)) => match spec_end_of_input(text, base, end) {
            Some(error) => Err(error),
            None => Ok(annotation),
        },
    }
}

/// What a text that holds a field definition and nothing else stands for.
pub open spec fn spec_parse_field_definition(text: Seq<char>, base: u32) -> Result<
    FieldDefinitionView,
    SyntaxError,
> {
    match spec_field_definition(text, base, 0) {
        Err(error) => Err(error),
        Ok((field, end)) => match spec_end_of_input(text, base, end) {
            Some(error) => Err(error),
            None => Ok(field),
        },
    }
}

} // verus!
