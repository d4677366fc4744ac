//! A recursive-descent parser for the grammar of `grammar`: each function
//! reads what the grammar function of the same name describes.

use vstd::prelude::*;
use crate::grammar::{
    error_at, lexeme_text, span_at, spec_arguments, spec_arguments_definition,
    spec_default_value, spec_directive, spec_directives, spec_end_of_input, spec_expect,
    spec_field_definition, spec_fields, spec_identifier, spec_implements, spec_input_value,
    spec_input_values, spec_interface_names, spec_list_items, spec_name_value,
    spec_parse_field_definition, spec_parse_identifier,
    spec_parse_identifier_and_implements_interfaces, spec_parse_type, spec_type, spec_type_core, spec_value,
    Parsed,
};
use crate::lexer::{next_lexeme, next_token, Token, TokenKind};
use crate::location::Span;
use crate::source::{chars_of, fits_in_span, Source};
use crate::syntax::{
    lemma_list_view, lemma_object_view, ConstantArgument, ConstantArgumentList,
    ConstantDirective, ConstantValue, DefaultValue, FieldDefinition, Identifier,
    InputValueDefinition, InputValueDefinitionList, StringNode, SyntaxError, SyntaxErrorKind,
    TypeAnnotation,
};

verus! {

/// The parser's result stands for what the grammar says: the same value
/// and end, or the same error.
pub open spec fn parsed_as<T: DeepView>(
    result: Result<(T, usize), SyntaxError>,
    expected: Parsed<T::V>,
) -> bool {
    match (result, expected) {
        (Ok((node, end)), Ok((view, at))) => node.deep_view() == view && end as int == at,
        (Err(error), Err(other)) => error == other,
        _ => false,
    }
}

/// A result's end lies after `pos` and within the text.
pub open spec fn ends_after<T>(result: Result<(T, usize), SyntaxError>, pos: usize, len: nat) -> bool {
    match result {
        Ok((_, end)) => pos < end <= len,
        Err(_) => true,
    }
}

/// A result's end lies at or after `pos` and within the text.
pub open spec fn ends_from<T>(result: Result<(T, usize), SyntaxError>, pos: usize, len: nat) -> bool {
    match result {
        Ok((_, end)) => pos <= end <= len,
        Err(_) => true,
    }
}

/// A vector that grew by one item stands for the list it stood for
/// before, with what the item stands for added.
pub proof fn lemma_deep_view_push<T: DeepView>(before: Vec<T>, after: Vec<T>, item: T)
    requires
        after@ == before@.push(item),
    ensures
        after.deep_view() == before.deep_view().push(item.deep_view()),
{
    assert(after.deep_view() =~= before.deep_view().push(item.deep_view()));
}

fn span_of(src: &Source, from: usize, to: usize) -> (span: Span)
    requires
        src.wf(),
        from <= src.chars@.len(),
        to <= src.chars@.len(),
    ensures
        span == span_at(src.chars@, src.base, from as int, to as int),
{
    Span { start: src.offset(from), end: src.offset(to) }
}

fn error_of(src: &Source, found: Token, expected: SyntaxErrorKind) -> (error: SyntaxError)
    requires
        src.wf(),
        found.start <= src.chars@.len(),
        found.end <= src.chars@.len(),
    ensures
        error == error_at(src.chars@, src.base, found@, expected),
{
    SyntaxError {
        kind: if found.kind.is_error() {
            SyntaxErrorKind::Malformed(found.kind)
        } else {
            expected
        },
        span: span_of(src, found.start, found.end),
    }
}

fn expect(src: &Source, pos: usize, kind: TokenKind) -> (result: Result<Token, SyntaxError>)
    requires
        src.wf(),
        pos <= src.chars@.len(),
    ensures
        match result {
            Ok(token) => spec_expect(src.chars@, src.base, pos as int, kind) == Ok::<
                _,
                SyntaxError,
            >(token@) && pos <= token.start <= token.end <= src.chars@.len() && token.kind
                == kind && (kind != TokenKind::EndOfFile ==> token.start < token.end),
            Err(error) => spec_expect(src.chars@, src.base, pos as int, kind) == Err::<
                crate::lexer::Lexeme,
                _,
            >(error),
        },
{
    let token = next_token(&src.chars, pos);
    if token.kind == kind {
        Ok(token)
    } else {
        Err(error_of(src, token, SyntaxErrorKind::Expected(kind)))
    }
}

/// Whether the text of `token` is `word`.
fn word_is(src: &Source, token: Token, word: &str) -> (same: bool)
    requires
        token.start <= token.end <= src.chars@.len(),
    ensures
        same == (lexeme_text(src.chars@, token@) == word@),
{
    let letters = chars_of(word);
    let ghost piece = lexeme_text(src.chars@, token@);
    if letters.len() != token.end - token.start {
        return false;
    }
    let mut i: usize = 0;
    while i < letters.len()
        invariant
            i <= letters.len(),
            letters.len() == token.end - token.start,
            token.start <= token.end <= src.chars@.len(),
            piece == lexeme_text(src.chars@, token@),
            letters@ == word@,
            forall|j: int| 0 <= j < i ==> letters[j] == piece[j],
        decreases letters.len() - i,
    {
        if letters[i] != src.chars[token.start + i] {
            assert(piece[i as int] != letters[i as int]);
            return false;
        }
        i += 1;
    }
    proof {
        assert(piece =~= letters@);
    }
    true
}

fn identifier_of(src: &Source, token: Token) -> (name: Identifier)
    requires
        src.wf(),
        token.start <= token.end <= src.chars@.len(),
    ensures
        name.deep_view() == (crate::syntax::IdentifierView {
            span: span_at(src.chars@, src.base, token.start as int, token.end as int),
            value: lexeme_text(src.chars@, token@),
        }),
{
    Identifier {
        span: span_of(src, token.start, token.end),
        value: src.slice(token.start, token.end),
    }
}

fn string_of(src: &Source, token: Token) -> (node: StringNode)
    requires
        src.wf(),
        token.start + 2 <= token.end <= src.chars@.len(),
    ensures
        node.deep_view() == (crate::syntax::StringNodeView {
            span: span_at(src.chars@, src.base, token.start as int, token.end as int),
            value: src.chars@.subrange(token.start + 1, token.end - 1),
        }),
{
    StringNode {
        span: span_of(src, token.start, token.end),
        value: src.slice(token.start + 1, token.end - 1),
    }
}

/// A string token holds both of its quotes.
proof fn lemma_string_token_length(text: Seq<char>, pos: int)
    requires
        0 <= pos <= text.len(),
        next_lexeme(text, pos).kind == TokenKind::StringLiteral,
    ensures
        next_lexeme(text, pos).start + 2 <= next_lexeme(text, pos).end,
{
    crate::lexer::lemma_string_lexeme(text, pos);
}

pub fn parse_identifier_at(src: &Source, pos: usize) -> (result: Result<
    (Identifier, usize),
    SyntaxError,
>)
    requires
        src.wf(),
        pos <= src.chars@.len(),
    ensures
        parsed_as(result, spec_identifier(src.chars@, src.base, pos as int)),
        ends_after(result, pos, src.chars@.len()),
{
    let token = next_token(&src.chars, pos);
    if token.kind == TokenKind::Name {
        Ok((identifier_of(src, token), token.end))
    } else {
        Err(error_of(src, token, SyntaxErrorKind::ExpectedName))
    }
}

fn parse_interface_names(src: &Source, pos: usize) -> (result: Result<
    (Vec<Identifier>, usize),
    SyntaxError,
>)
    requires
        src.wf(),
        pos <= src.chars@.len(),
    ensures
        parsed_as(
            result,
            spec_interface_names(src.chars@, src.base, pos as int, Seq::empty()),
        ),
        ends_after(result, pos, src.chars@.len()),
{
    let mut names: Vec<Identifier> = Vec::new();
    let mut cur: usize = pos;
    proof {
        assert(names.deep_view() =~= Seq::empty());
    }
    loop
        invariant
            src.wf(),
            pos <= cur <= src.chars@.len(),
            spec_interface_names(src.chars@, src.base, pos as int, Seq::empty())
                == spec_interface_names(src.chars@, src.base, cur as int, names.deep_view()),
        decreases src.chars@.len() - cur,
    {
        match parse_identifier_at(src, cur) {
            Err(error) => {
                return Err(error);
            },
            Ok((name, end)) => {
                let ghost before = names;
                let ghost added = name;
                names.push(name);
                proof {
                    lemma_deep_view_push(before, names, added);
                }
                let token = next_token(&src.chars, end);
                if token.kind == TokenKind::Ampersand {
                    cur = token.end;
                } else {
                    return Ok((names, end));
                }
            },
        }
    }
}

pub fn parse_implements_at(src: &Source, pos: usize) -> (result: Result<
    (Vec<Identifier>, usize),
    SyntaxError,
>)
    requires
        src.wf(),
        pos <= src.chars@.len(),
    ensures
        parsed_as(result, spec_implements(src.chars@, src.base, pos as int)),
        ends_from(result, pos, src.chars@.len()),
{
    let word = next_token(&src.chars, pos);
    if word.kind == TokenKind::Name && word_is(src, word, "implements") {
        let lead = next_token(&src.chars, word.end);
        let first: usize = if lead.kind == TokenKind::Ampersand {
            lead.end
        } else {
            word.end
        };
        parse_interface_names(src, first)
    } else {
        let names: Vec<Identifier> = Vec::new();
        proof {
            assert(names.deep_view() =~= Seq::empty());
        }
        Ok((names, pos))
    }
}

pub fn parse_end_of_input(src: &Source, pos: usize) -> (error: Option<SyntaxError>)
    requires
        src.wf(),
        pos <= src.chars@.len(),
    ensures
        error == spec_end_of_input(src.chars@, src.base, pos as int),
{
    match expect(src, pos, TokenKind::EndOfFile) {
        Ok(_) => None,
        Err(error) => Some(error),
    }
}

pub fn parse_type_at(src: &Source, pos: usize) -> (result: Result<
    (TypeAnnotation, usize),
    SyntaxError,
>)
    requires
        src.wf(),
        pos <= src.chars@.len(),
    ensures
        parsed_as(result, spec_type(src.chars@, src.base, pos as int)),
        ends_after(result, pos, src.chars@.len()),
    decreases src.chars@.len() - pos,
{
    let token = next_token(&src.chars, pos);
    let core: (TypeAnnotation, usize) = if token.kind == TokenKind::Name {
        (TypeAnnotation::Named(identifier_of(src, token)), token.end)
    } else if token.kind == TokenKind::OpenBracket {
        match parse_type_at(src, token.end) {
            Err(error) => {
                return Err(error);
            },
            Ok((inner, end)) => match expect(src, end, TokenKind::CloseBracket) {
                Err(error) => {
                    return Err(error);
                },
                Ok(close) => (
                    TypeAnnotation::List {
                        span: span_of(src, token.start, close.end),
                        inner: Box::new(inner),
                    },
                    close.end,
                ),
            },
        }
    } else {
        return Err(error_of(src, token, SyntaxErrorKind::ExpectedType));
    };
    let (annotation, end) = core;
    assert(parsed_as(
        Ok::<_, SyntaxError>((annotation, end)),
        spec_type_core(src.chars@, src.base, pos as int),
    ));
    let mark = next_token(&src.chars, end);
    if mark.kind == TokenKind::Exclamation {
        Ok(
            (
                TypeAnnotation::NonNull {
                    span: span_of(src, token.start, mark.end),
                    inner: Box::new(annotation),
                },
                mark.end,
            ),
        )
    } else {
        Ok((annotation, end))
    }
}

fn name_value(src: &Source, token: Token) -> (value: ConstantValue)
    requires
        src.wf(),
        token.start <= token.end <= src.chars@.len(),
    ensures
        value.deep_view() == spec_name_value(
            lexeme_text(src.chars@, token@),
            span_at(src.chars@, src.base, token.start as int, token.end as int),
        ),
{
    let span = span_of(src, token.start, token.end);
    if word_is(src, token, "true") {
        ConstantValue::Boolean { span, value: true }
    } else if word_is(src, token, "false") {
        ConstantValue::Boolean { span, value: false }
    } else if word_is(src, token, "null") {
        ConstantValue::Null { span }
    } else {
        ConstantValue::Enum { span, name: src.slice(token.start, token.end) }
    }
}

pub fn parse_value_at(src: &Source, pos: usize) -> (result: Result<
    (ConstantValue, usize),
    SyntaxError,
>)
    requires
        src.wf(),
        pos <= src.chars@.len(),
    ensures
        parsed_as(result, spec_value(src.chars@, src.base, pos as int)),
        ends_after(result, pos, src.chars@.len()),
    decreases src.chars@.len() - pos, 0nat,
{
    let token = next_token(&src.chars, pos);
    match token.kind {
        TokenKind::IntegerLiteral => Ok(
            (
                ConstantValue::Int {
                    span: span_of(src, token.start, token.end),
                    text: src.slice(token.start, token.end),
                },
                token.end,
            ),
        ),
        TokenKind::FloatLiteral => Ok(
            (
                ConstantValue::Float {
                    span: span_of(src, token.start, token.end),
                    text: src.slice(token.start, token.end),
                },
                token.end,
            ),
        ),
        TokenKind::StringLiteral => {
            proof {
                lemma_string_token_length(src.chars@, pos as int);
            }
            Ok((ConstantValue::String(string_of(src, token)), token.end))
        },
        TokenKind::Name => Ok((name_value(src, token), token.end)),
        TokenKind::OpenBracket => match parse_list_items(src, token.end) {
            Err(error) => Err(error),
            Ok((items, end)) => {
                let span = span_of(src, token.start, end);
                proof {
                    lemma_list_view(span, items);
                }
                Ok((ConstantValue::List { span, items }, end))
            },
        },
        TokenKind::OpenBrace => match parse_fields(src, token.end, TokenKind::CloseBrace) {
            Err(error) => Err(error),
            Ok((fields, end)) => {
                let span = span_of(src, token.start, end);
                proof {
                    lemma_object_view(span, fields);
                }
                Ok((ConstantValue::Object { span, fields }, end))
            },
        },
        _ => Err(error_of(src, token, SyntaxErrorKind::ExpectedConstantValue)),
    }
}

#[verifier::loop_isolation(false)]
fn parse_list_items(src: &Source, pos: usize) -> (result: Result<
    (Vec<ConstantValue>, usize),
    SyntaxError,
>)
    requires
        src.wf(),
        pos <= src.chars@.len(),
    ensures
        parsed_as(result, spec_list_items(src.chars@, src.base, pos as int, Seq::empty())),
        ends_after(result, pos, src.chars@.len()),
    decreases src.chars@.len() - pos, 1nat,
{
    let mut items: Vec<ConstantValue> = Vec::new();
    let mut cur: usize = pos;
    proof {
        assert(items.deep_view() =~= Seq::empty());
    }
    loop
        invariant
            pos <= cur <= src.chars@.len(),
            spec_list_items(src.chars@, src.base, pos as int, Seq::empty()) == spec_list_items(
                src.chars@,
                src.base,
                cur as int,
                items.deep_view(),
            ),
        decreases src.chars@.len() - cur,
    {
        let token = next_token(&src.chars, cur);
        if token.kind == TokenKind::CloseBracket {
            return Ok((items, token.end));
        }
        match parse_value_at(src, cur) {
            Err(error) => {
                return Err(error);
            },
            Ok((item, end)) => {
                let ghost before = items;
                let ghost added = item;
                items.push(item);
                proof {
                    lemma_deep_view_push(before, items, added);
                }
                cur = end;
            },
        }
    }
}

#[verifier::loop_isolation(false)]
fn parse_fields(src: &Source, pos: usize, closer: TokenKind) -> (result: Result<
    (Vec<ConstantArgument>, usize),
    SyntaxError,
>)
    requires
        src.wf(),
        pos <= src.chars@.len(),
        closer != TokenKind::EndOfFile,
    ensures
        parsed_as(
            result,
            spec_fields(src.chars@, src.base, pos as int, closer, Seq::empty()),
        ),
        ends_after(result, pos, src.chars@.len()),
    decreases src.chars@.len() - pos, 1nat,
{
    let mut fields: Vec<ConstantArgument> = Vec::new();
    let mut cur: usize = pos;
    proof {
        assert(fields.deep_view() =~= Seq::empty());
    }
    loop
        invariant
            pos <= cur <= src.chars@.len(),
            spec_fields(src.chars@, src.base, pos as int, closer, Seq::empty()) == spec_fields(
                src.chars@,
                src.base,
                cur as int,
                closer,
                fields.deep_view(),
            ),
        decreases src.chars@.len() - cur,
    {
        let token = next_token(&src.chars, cur);
        if token.kind == closer {
            return Ok((fields, token.end));
        }
        let (name, after_name) = match parse_identifier_at(src, cur) {
            Err(error) => {
                return Err(error);
            },
            Ok(read) => read,
        };
        let colon = match expect(src, after_name, TokenKind::Colon) {
            Err(error) => {
                return Err(error);
            },
            Ok(colon) => colon,
        };
        match parse_value_at(src, colon.end) {
            Err(error) => {
                return Err(error);
            },
            Ok((value, end)) => {
                let ghost before = fields;
                let span = Span { start: name.span.start, end: value.span().end };
                let field = ConstantArgument { span, name, value };
                let ghost added = field;
                fields.push(field);
                proof {
                    lemma_deep_view_push(before, fields, added);
                }
                cur = end;
            },
        }
    }
}

pub fn parse_arguments_at(src: &Source, pos: usize) -> (result: Result<
    (Option<ConstantArgumentList>, usize),
    SyntaxError,
>)
    requires
        src.wf(),
        pos <= src.chars@.len(),
    ensures
        parsed_as(result, spec_arguments(src.chars@, src.base, pos as int)),
        ends_from(result, pos, src.chars@.len()),
{
    let open = next_token(&src.chars, pos);
    if open.kind == TokenKind::OpenParen {
        match parse_fields(src, open.end, TokenKind::CloseParen) {
            Err(error) => Err(error),
            Ok((items, end)) => {
                if items.len() == 0 {
                    let found = next_token(&src.chars, open.end);
                    Err(error_of(src, found, SyntaxErrorKind::ExpectedName))
                } else {
                    Ok(
                        (
                            Some(
                                ConstantArgumentList {
                                    span: span_of(src, open.start, end),
                                    items,
                                },
                            ),
                            end,
                        ),
                    )
                }
            },
        }
    } else {
        Ok((None, pos))
    }
}

pub fn parse_directive_at(src: &Source, pos: usize) -> (result: Result<
    (ConstantDirective, usize),
    SyntaxError,
>)
    requires
        src.wf(),
        pos <= src.chars@.len(),
    ensures
        parsed_as(result, spec_directive(src.chars@, src.base, pos as int)),
        ends_after(result, pos, src.chars@.len()),
{
    let at = match expect(src, pos, TokenKind::At) {
        Err(error) => {
            return Err(error);
        },
        Ok(at) => at,
    };
    let (name, after_name) = match parse_identifier_at(src, at.end) {
        Err(error) => {
            return Err(error);
        },
        Ok(read) => read,
    };
    match parse_arguments_at(src, after_name) {
        Err(error) => Err(error),
        Ok((arguments, end)) => Ok(
            (ConstantDirective { span: span_of(src, at.start, end), name, arguments }, end),
        ),
    }
}

pub fn parse_directives_at(src: &Source, pos: usize) -> (result: Result<
    (Vec<ConstantDirective>, usize),
    SyntaxError,
>)
    requires
        src.wf(),
        pos <= src.chars@.len(),
    ensures
        parsed_as(result, spec_directives(src.chars@, src.base, pos as int, Seq::empty())),
        ends_from(result, pos, src.chars@.len()),
{
    let mut directives: Vec<ConstantDirective> = Vec::new();
    let mut cur: usize = pos;
    proof {
        assert(directives.deep_view() =~= Seq::empty());
    }
    loop
        invariant
            src.wf(),
            pos <= cur <= src.chars@.len(),
            spec_directives(src.chars@, src.base, pos as int, Seq::empty()) == spec_directives(
                src.chars@,
                src.base,
                cur as int,
                directives.deep_view(),
            ),
        decreases src.chars@.len() - cur,
    {
        let token = next_token(&src.chars, cur);
        if token.kind != TokenKind::At {
            return Ok((directives, cur));
        }
        match parse_directive_at(src, cur) {
            Err(error) => {
                return Err(error);
            },
            Ok((directive, end)) => {
                let ghost before = directives;
                let ghost added = directive;
                directives.push(directive);
                proof {
                    lemma_deep_view_push(before, directives, added);
                }
                cur = end;
            },
        }
    }
}

pub fn parse_default_value_at(src: &Source, pos: usize) -> (result: Result<
    (Option<DefaultValue>, usize),
    SyntaxError,
>)
    requires
        src.wf(),
        pos <= src.chars@.len(),
    ensures
        parsed_as(result, spec_default_value(src.chars@, src.base, pos as int)),
        ends_from(result, pos, src.chars@.len()),
{
    let equals = next_token(&src.chars, pos);
    if equals.kind == TokenKind::Equals {
        match parse_value_at(src, equals.end) {
            Err(error) => Err(error),
            Ok((value, end)) => Ok(
                (Some(DefaultValue { span: span_of(src, equals.start, end), value }), end),
            ),
        }
    } else {
        Ok((None, pos))
    }
}

pub fn parse_input_value_at(src: &Source, pos: usize) -> (result: Result<
    (InputValueDefinition, usize),
    SyntaxError,
>)
    requires
        src.wf(),
        pos <= src.chars@.len(),
    ensures
        parsed_as(result, spec_input_value(src.chars@, src.base, pos as int)),
        ends_after(result, pos, src.chars@.len()),
{
    let first = next_token(&src.chars, pos);
    let described = first.kind == TokenKind::StringLiteral;
    let description = if described {
        proof {
            lemma_string_token_length(src.chars@, pos as int);
        }
        Some(string_of(src, first))
    } else {
        None
    };
    let name_pos: usize = if described {
        first.end
    } else {
        pos
    };
    let (name, after_name) = match parse_identifier_at(src, name_pos) {
        Err(error) => {
            return Err(error);
        },
        Ok(read) => read,
    };
    let colon = match expect(src, after_name, TokenKind::Colon) {
        Err(error) => {
            return Err(error);
        },
        Ok(colon) => colon,
    };
    let (type_, after_type) = match parse_type_at(src, colon.end) {
        Err(error) => {
            return Err(error);
        },
        Ok(read) => read,
    };
    let (default_value, after_default) = match parse_default_value_at(src, after_type) {
        Err(error) => {
            return Err(error);
        },
        Ok(read) => read,
    };
    match parse_directives_at(src, after_default) {
        Err(error) => Err(error),
        Ok((directives, end)) => Ok(
            (
                InputValueDefinition {
                    span: span_of(src, first.start, end),
                    description,
                    name,
                    type_,
                    default_value,
                    directives,
                },
                end,
            ),
        ),
    }
}

fn parse_input_values(src: &Source, pos: usize) -> (result: Result<
    (Vec<InputValueDefinition>, usize),
    SyntaxError,
>)
    requires
        src.wf(),
        pos <= src.chars@.len(),
    ensures
        parsed_as(result, spec_input_values(src.chars@, src.base, pos as int, Seq::empty())),
        ends_after(result, pos, src.chars@.len()),
{
    let mut items: Vec<InputValueDefinition> = Vec::new();
    let mut cur: usize = pos;
    proof {
        assert(items.deep_view() =~= Seq::empty());
    }
    loop
        invariant
            src.wf(),
            pos <= cur <= src.chars@.len(),
            spec_input_values(src.chars@, src.base, pos as int, Seq::empty())
                == spec_input_values(src.chars@, src.base, cur as int, items.deep_view()),
        decreases src.chars@.len() - cur,
    {
        let token = next_token(&src.chars, cur);
        if token.kind == TokenKind::CloseParen {
            return Ok((items, token.end));
        }
        match parse_input_value_at(src, cur) {
            Err(error) => {
                return Err(error);
            },
            Ok((item, end)) => {
                let ghost before = items;
                let ghost added = item;
                items.push(item);
                proof {
                    lemma_deep_view_push(before, items, added);
                }
                cur = end;
            },
        }
    }
}

pub fn parse_arguments_definition_at(src: &Source, pos: usize) -> (result: Result<
    (Option<InputValueDefinitionList>, usize),
    SyntaxError,
>)
    requires
        src.wf(),
        pos <= src.chars@.len(),
    ensures
        parsed_as(result, spec_arguments_definition(src.chars@, src.base, pos as int)),
        ends_from(result, pos, src.chars@.len()),
{
    let open = next_token(&src.chars, pos);
    if open.kind == TokenKind::OpenParen {
        match parse_input_values(src, open.end) {
            Err(error) => Err(error),
            Ok((items, end)) => {
                if items.len() == 0 {
                    let found = next_token(&src.chars, open.end);
                    Err(error_of(src, found, SyntaxErrorKind::ExpectedName))
                } else {
                    Ok(
                        (
                            Some(
                                InputValueDefinitionList {
                                    span: span_of(src, open.start, end),
                                    items,
                                },
                            ),
                            end,
                        ),
                    )
                }
            },
        }
    } else {
        Ok((None, pos))
    }
}

pub fn parse_field_definition_at(src: &Source, pos: usize) -> (result: Result<
    (FieldDefinition, usize),
    SyntaxError,
>)
    requires
        src.wf(),
        pos <= src.chars@.len(),
    ensures
        parsed_as(result, spec_field_definition(src.chars@, src.base, pos as int)),
        ends_after(result, pos, src.chars@.len()),
{
    let (name, after_name) = match parse_identifier_at(src, pos) {
        Err(error) => {
            return Err(error);
        },
        Ok(read) => read,
    };
    let (arguments, after_arguments) = match parse_arguments_definition_at(src, after_name) {
        Err(error) => {
            return Err(error);
        },
        Ok(read) => read,
    };
    let colon = match expect(src, after_arguments, TokenKind::Colon) {
        Err(error) => {
            return Err(error);
        },
        Ok(colon) => colon,
    };
    let (type_, after_type) = match parse_type_at(src, colon.end) {
        Err(error) => {
            return Err(error);
        },
        Ok(read) => read,
    };
    match parse_directives_at(src, after_type) {
        Err(error) => Err(error),
        Ok((directives, end)) => Ok(
            (
                FieldDefinition {
                    span: Span { start: name.span.start, end: src.offset(end) },
                    name,
                    type_,
                    arguments,
                    directives,
                    description: None,
                },
                end,
            ),
        ),
    }
}

/// Reads the name that `source` begins with. `offset` is the byte offset
/// of `source` in its file. What follows the name is not looked at.
pub fn parse_identifier(source: &str, offset: u32) -> (result: Result<Identifier, SyntaxError>)
    requires
        fits_in_span(source@, offset),
    ensures
        match (result, spec_parse_identifier(source@, offset)) {
            (Ok(name), Ok(view)) => name.deep_view() == view,
            (Err(error), Err(other)) => error == other,
            _ => false,
        },
{
    let src = Source::new(source, offset);
    match parse_identifier_at(&src, 0) {
        Err(error) => Err(error),
        Ok((name, _)) => Ok(name),
    }
}

/// Reads a name and the interfaces it implements; `source` may hold
/// nothing else.
pub fn parse_identifier_and_implements_interfaces(source: &str, offset: u32) -> (result: Result<
    (Identifier, Vec<Identifier>),
    SyntaxError,
>)
    requires
        fits_in_span(source@, offset),
    ensures
        match (result, spec_parse_identifier_and_implements_interfaces(source@, offset)) {
            (Ok((name, interfaces)), Ok((view, views))) => name.deep_view() == view
                && interfaces.deep_view() == views,
            (Err(error), Err(other)) => error == other,
            _ => false,
        },
{
    let src = Source::new(source, offset);
    let (name, after_name) = match parse_identifier_at(&src, 0) {
        Err(error) => {
            return Err(error);
        },
        Ok(read) => read,
    };
    let (interfaces, end) = match parse_implements_at(&src, after_name) {
        Err(error) => {
            return Err(error);
        },
        Ok(read) => read,
    };
    match parse_end_of_input(&src, end) {
        Some(error) => Err(error),
        None => Ok((name, interfaces)),
    }
}

/// Reads a type; `source` may hold nothing else.
pub fn parse_type(source: &str, offset: u32) -> (result: Result<TypeAnnotation, SyntaxError>)
    requires
        fits_in_span(source@, offset),
    ensures
        match (result, spec_parse_type(source@, offset)) {
            (Ok(annotation), Ok(view)) => annotation.deep_view() == view,
            (Err(error), Err(other)) => error == other,
            _ => false,
        },
{
    let src = Source::new(source, offset);
    let (annotation, end) = match parse_type_at(&src, 0) {
        Err(error) => {
            return Err(error);
        },
        Ok(read) => read,
    };
    match parse_end_of_input(&src, end) {
        Some(error) => Err(error),
        None => Ok(annotation),
    }
}

/// Reads a field definition; `source` may hold nothing else.
pub fn parse_field_definition(source: &str, offset: u32) -> (result: Result<
    FieldDefinition,
    SyntaxError,
>)
    requires
        fits_in_span(source@, offset),
    ensures
        match (result, spec_parse_field_definition(source@, offset)) {
            (Ok(field), Ok(view)) => field.deep_view() == view,
            (Err(error), Err(other)) => error == other,
            _ => false,
        },
{
    let src = Source::new(source, offset);
    let (field, end) = match parse_field_definition_at(&src, 0) {
        Err(error) => {
            return Err(error);
        },
        Ok(read) => read,
    };
    match parse_end_of_input(&src, end) {
        Some(error) => Err(error),
        None => Ok(field),
    }
}

} // verus!
