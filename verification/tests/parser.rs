use relay_docblock::lexer::{next_token, Token, TokenKind};
use relay_docblock::location::Span;
use relay_docblock::parser::{
    parse_field_definition, parse_identifier, parse_identifier_and_implements_interfaces,
    parse_type,
};
use relay_docblock::source::{chars_of, text_fits, utf8_width};
use relay_docblock::syntax::{
    ConstantValue, Identifier, StringNode, SyntaxError, SyntaxErrorKind, TypeAnnotation,
};

fn name(start: u32, text: &str) -> Identifier {
    Identifier::new(Span::new(start, start + text.len() as u32), text.to_string())
}

fn kinds(text: &str) -> Vec<(TokenKind, usize, usize)> {
    let chars = chars_of(text);
    let mut found = vec![];
    let mut pos = 0;
    loop {
        let Token { kind, start, end } = next_token(&chars, pos);
        found.push((kind, start, end));
        if kind == TokenKind::EndOfFile {
            return found;
        }
        pos = end;
    }
}

#[test]
fn tokens_of_a_field_definition() {
    assert_eq!(
        kinds("bar(x: Int!): [String] @a"),
        vec![
            (TokenKind::Name, 0, 3),
            (TokenKind::OpenParen, 3, 4),
            (TokenKind::Name, 4, 5),
            (TokenKind::Colon, 5, 6),
            (TokenKind::Name, 7, 10),
            (TokenKind::Exclamation, 10, 11),
            (TokenKind::CloseParen, 11, 12),
            (TokenKind::Colon, 12, 13),
            (TokenKind::OpenBracket, 14, 15),
            (TokenKind::Name, 15, 21),
            (TokenKind::CloseBracket, 21, 22),
            (TokenKind::At, 23, 24),
            (TokenKind::Name, 24, 25),
            (TokenKind::EndOfFile, 25, 25),
        ]
    );
}

#[test]
fn commas_and_white_space_are_skipped() {
    assert_eq!(
        kinds(" ,\t\r\n\u{feff}a,,b "),
        vec![
            (TokenKind::Name, 6, 7),
            (TokenKind::Name, 9, 10),
            (TokenKind::EndOfFile, 11, 11),
        ]
    );
}

#[test]
fn numbers() {
    assert_eq!(kinds("0")[0], (TokenKind::IntegerLiteral, 0, 1));
    assert_eq!(kinds("-12")[0], (TokenKind::IntegerLiteral, 0, 3));
    assert_eq!(kinds("1.5")[0], (TokenKind::FloatLiteral, 0, 3));
    assert_eq!(kinds("1e10")[0], (TokenKind::FloatLiteral, 0, 4));
    assert_eq!(kinds("-1.25E-3")[0], (TokenKind::FloatLiteral, 0, 8));
    assert_eq!(kinds("-")[0], (TokenKind::InvalidNumber, 0, 1));
    assert_eq!(kinds("01")[0], (TokenKind::InvalidNumber, 0, 2));
    assert_eq!(kinds("1.")[0], (TokenKind::InvalidNumber, 0, 2));
    assert_eq!(kinds("1e")[0], (TokenKind::InvalidNumber, 0, 2));
    assert_eq!(kinds("1e+")[0], (TokenKind::InvalidNumber, 0, 3));
    assert_eq!(kinds("12a")[0], (TokenKind::InvalidNumber, 0, 3));
    assert_eq!(kinds("1.5.2")[0], (TokenKind::InvalidNumber, 0, 4));
}

#[test]
fn strings() {
    assert_eq!(kinds("\"\"")[0], (TokenKind::StringLiteral, 0, 2));
    assert_eq!(kinds("\"a b\" c")[0], (TokenKind::StringLiteral, 0, 5));
    assert_eq!(kinds("\"a\\\"b\"")[0], (TokenKind::StringLiteral, 0, 6));
    assert_eq!(kinds("\"abc")[0], (TokenKind::UnterminatedString, 0, 4));
    assert_eq!(kinds("\"ab\ncd\"")[0], (TokenKind::UnterminatedString, 0, 3));
    assert_eq!(kinds("\"ab\\")[0], (TokenKind::UnterminatedString, 0, 4));
}

#[test]
fn characters_that_begin_no_token() {
    assert_eq!(kinds("#")[0], (TokenKind::UnknownCharacter, 0, 1));
    assert_eq!(kinds(".")[0], (TokenKind::UnknownCharacter, 0, 1));
    assert_eq!(kinds("\u{e9}")[0], (TokenKind::UnknownCharacter, 0, 1));
}

#[test]
fn the_width_of_characters() {
    assert_eq!(utf8_width('a'), 1);
    assert_eq!(utf8_width('\u{7f}'), 1);
    assert_eq!(utf8_width('\u{80}'), 2);
    assert_eq!(utf8_width('\u{7ff}'), 2);
    assert_eq!(utf8_width('\u{800}'), 3);
    assert_eq!(utf8_width('\u{ffff}'), 3);
    assert_eq!(utf8_width('\u{10000}'), 4);
    for c in ['a', '\u{e9}', '\u{20ac}', '\u{1f600}'] {
        assert_eq!(utf8_width(c) as usize, c.len_utf8());
    }
}

#[test]
fn a_text_fits_where_its_end_fits() {
    assert!(text_fits("", u32::MAX));
    assert!(!text_fits("a", u32::MAX));
    assert!(text_fits("abc", u32::MAX - 3));
    assert!(!text_fits("ab\u{e9}", u32::MAX - 3));
    assert!(text_fits("User", 0));
}

#[test]
fn an_identifier_is_read_from_the_start() {
    assert_eq!(parse_identifier("User", 7), Ok(name(7, "User")));
    assert_eq!(parse_identifier("  User.name", 7), Ok(name(9, "User")));
    assert_eq!(parse_identifier("_a1 b", 0), Ok(name(0, "_a1")));
    assert_eq!(
        parse_identifier("", 7),
        Err(SyntaxError {
            kind: SyntaxErrorKind::ExpectedName,
            span: Span::new(7, 7)
        })
    );
    assert_eq!(
        parse_identifier("1a", 7),
        Err(SyntaxError {
            kind: SyntaxErrorKind::Malformed(TokenKind::InvalidNumber),
            span: Span::new(7, 9)
        })
    );
    assert_eq!(
        parse_identifier("(", 7),
        Err(SyntaxError {
            kind: SyntaxErrorKind::ExpectedName,
            span: Span::new(7, 8)
        })
    );
}

#[test]
fn interfaces_follow_the_word_implements() {
    assert_eq!(
        parse_identifier_and_implements_interfaces("User", 0),
        Ok((name(0, "User"), vec![]))
    );
    assert_eq!(
        parse_identifier_and_implements_interfaces("User implements & Node & Entity", 10),
        Ok((name(10, "User"), vec![name(28, "Node"), name(35, "Entity")]))
    );
    assert_eq!(
        parse_identifier_and_implements_interfaces("User extends Node", 0),
        Err(SyntaxError {
            kind: SyntaxErrorKind::Expected(TokenKind::EndOfFile),
            span: Span::new(5, 12)
        })
    );
    assert_eq!(
        parse_identifier_and_implements_interfaces("User implements Node &", 0),
        Err(SyntaxError {
            kind: SyntaxErrorKind::ExpectedName,
            span: Span::new(22, 22)
        })
    );
}

#[test]
fn types_nest() {
    assert_eq!(parse_type("Int", 0), Ok(TypeAnnotation::Named(name(0, "Int"))));
    assert_eq!(
        parse_type("[[Int!]]!", 100),
        Ok(TypeAnnotation::NonNull {
            span: Span::new(100, 109),
            inner: Box::new(TypeAnnotation::List {
                span: Span::new(100, 108),
                inner: Box::new(TypeAnnotation::List {
                    span: Span::new(101, 107),
                    inner: Box::new(TypeAnnotation::NonNull {
                        span: Span::new(102, 106),
                        inner: Box::new(TypeAnnotation::Named(name(102, "Int"))),
                    }),
                }),
            }),
        })
    );
    let nested = parse_type("[[Int!]]!", 100).unwrap();
    assert_eq!(nested.span(), Span::new(100, 109));
    assert_eq!(nested.inner(), &name(102, "Int"));
    assert!(nested.is_non_null());
    assert_eq!(nested.clone(), nested);
    assert_eq!(
        parse_type("[Int", 0),
        Err(SyntaxError {
            kind: SyntaxErrorKind::Expected(TokenKind::CloseBracket),
            span: Span::new(4, 4)
        })
    );
    assert_eq!(
        parse_type("!", 0),
        Err(SyntaxError {
            kind: SyntaxErrorKind::ExpectedType,
            span: Span::new(0, 1)
        })
    );
    assert_eq!(
        parse_type("Int Int", 0),
        Err(SyntaxError {
            kind: SyntaxErrorKind::Expected(TokenKind::EndOfFile),
            span: Span::new(4, 7)
        })
    );
}

#[test]
fn a_field_definition_with_everything() {
    let field = parse_field_definition(
        "avatar(\"in pixels\" size: Int = 64 @deprecated(reason: \"no\"), flags: Flags = {a: true, b: [LOW, null, 1.5]}): Image @live",
        1000,
    )
    .unwrap();
    assert_eq!(field.name, name(1000, "avatar"));
    assert_eq!(field.span, Span::new(1000, 1120));
    assert_eq!(field.type_, TypeAnnotation::Named(name(1109, "Image")));
    assert_eq!(field.description, None);
    assert_eq!(field.directives.len(), 1);
    assert_eq!(field.directives[0].name, name(1116, "live"));
    assert_eq!(field.directives[0].arguments, None);
    let arguments = field.arguments.unwrap();
    assert_eq!(arguments.span, Span::new(1006, 1107));
    assert_eq!(arguments.items.len(), 2);
    let size = &arguments.items[0];
    assert_eq!(size.span, Span::new(1007, 1059));
    assert_eq!(
        size.description,
        Some(StringNode {
            span: Span::new(1007, 1018),
            value: "in pixels".to_string()
        })
    );
    assert_eq!(size.name, name(1019, "size"));
    let default_value = size.default_value.clone().unwrap();
    assert_eq!(default_value.span, Span::new(1029, 1033));
    assert_eq!(
        default_value.value,
        ConstantValue::Int {
            span: Span::new(1031, 1033),
            text: "64".to_string()
        }
    );
    assert_eq!(size.directives.len(), 1);
    let reason = &size.directives[0].arguments.as_ref().unwrap().items[0];
    assert_eq!(reason.name, name(1046, "reason"));
    assert_eq!(reason.span, Span::new(1046, 1058));
    assert_eq!(
        reason.value,
        ConstantValue::String(StringNode {
            span: Span::new(1054, 1058),
            value: "no".to_string()
        })
    );
    let flags = &arguments.items[1];
    assert_eq!(flags.name, name(1061, "flags"));
    match &flags.default_value.as_ref().unwrap().value {
        ConstantValue::Object { span, fields } => {
            assert_eq!(*span, Span::new(1076, 1106));
            assert_eq!(fields.len(), 2);
            assert_eq!(
                fields[0].value,
                ConstantValue::Boolean {
                    span: Span::new(1080, 1084),
                    value: true
                }
            );
            assert_eq!(
                fields[1].value,
                ConstantValue::List {
                    span: Span::new(1089, 1105),
                    items: vec![
                        ConstantValue::Enum {
                            span: Span::new(1090, 1093),
                            name: "LOW".to_string()
                        },
                        ConstantValue::Null {
                            span: Span::new(1095, 1099)
                        },
                        ConstantValue::Float {
                            span: Span::new(1101, 1104),
                            text: "1.5".to_string()
                        },
                    ],
                }
            );
            assert_eq!(fields[1].value.duplicate(), fields[1].value);
        }
        other => panic!("expected an object, got {:?}", other),
    }
}

#[test]
fn a_field_definition_that_is_none() {
    let error = |text: &str| parse_field_definition(text, 0).unwrap_err();
    assert_eq!(
        error("bar"),
        SyntaxError {
            kind: SyntaxErrorKind::Expected(TokenKind::Colon),
            span: Span::new(3, 3)
        }
    );
    assert_eq!(
        error("bar(): Int"),
        SyntaxError {
            kind: SyntaxErrorKind::ExpectedName,
            span: Span::new(4, 5)
        }
    );
    assert_eq!(
        error("bar(x: Int = ): Int"),
        SyntaxError {
            kind: SyntaxErrorKind::ExpectedConstantValue,
            span: Span::new(13, 14)
        }
    );
    assert_eq!(
        error("bar: Int @"),
        SyntaxError {
            kind: SyntaxErrorKind::ExpectedName,
            span: Span::new(10, 10)
        }
    );
    assert_eq!(
        error("bar: Int @a()"),
        SyntaxError {
            kind: SyntaxErrorKind::ExpectedName,
            span: Span::new(12, 13)
        }
    );
    assert_eq!(
        error("bar: Int @a(b: \"c)"),
        SyntaxError {
            kind: SyntaxErrorKind::Malformed(TokenKind::UnterminatedString),
            span: Span::new(15, 18)
        }
    );
    assert_eq!(
        error("bar: Int #"),
        SyntaxError {
            kind: SyntaxErrorKind::Malformed(TokenKind::UnknownCharacter),
            span: Span::new(9, 10)
        }
    );
    assert_eq!(
        error("bar(x: [Int = 1): Int"),
        SyntaxError {
            kind: SyntaxErrorKind::Expected(TokenKind::CloseBracket),
            span: Span::new(12, 13)
        }
    );
}
