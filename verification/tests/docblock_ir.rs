use relay_docblock::docblock_ir::{
    check_resolver_tag_validity, infer_kind, parse_docblock_ir, resolve_tag, ResolverKind, UsedTag,
};
use relay_docblock::errors::{
    Diagnostic, DiagnosticMessage, ErrorMessagesWithData, IrParsingErrorMessages,
};
use relay_docblock::executable::{
    Argument, ArgumentList, Directive, ExecutableDefinition, FragmentDefinition,
    OperationDefinition, TypeCondition, Value,
};
use relay_docblock::ir::{
    DocblockIr, ProjectName, ResolverFieldDocblockIr, ResolverTypeDocblockIr, StrongObjectIr,
    TerseRelayResolverIr, WeakObjectIr,
};
use relay_docblock::lexer::TokenKind;
use relay_docblock::location::{LocatedString, Location, SourceLocationKey, Span};
use relay_docblock::options::{FeatureFlag, ParseOptions};
use relay_docblock::syntax::{
    ConstantArgument, ConstantValue, Identifier, StringNode, SyntaxErrorKind, TypeAnnotation,
};
use relay_docblock::untyped_representation::{
    AllowedFieldName, FieldMap, IrField, ResolverSourceHash, UntypedDocblockRepresentation,
};

const DISABLED: FeatureFlag = FeatureFlag::Disabled;
const ENABLED: FeatureFlag = FeatureFlag::Enabled;

fn options<'a>(
    interfaces: &'a FeatureFlag,
    non_null: &'a FeatureFlag,
    legacy: &'a FeatureFlag,
) -> ParseOptions<'a> {
    ParseOptions {
        enable_interface_output_type: interfaces,
        allow_resolver_non_nullable_return_type: non_null,
        allow_legacy_relay_resolver_tag: legacy,
    }
}

fn strict<'a>() -> ParseOptions<'a> {
    options(&DISABLED, &DISABLED, &DISABLED)
}

fn at(start: u32, end: u32) -> Location {
    Location::new(SourceLocationKey::standalone(1), Span::new(start, end))
}

fn in_fragments(start: u32, end: u32) -> Location {
    Location::new(SourceLocationKey::standalone(2), Span::new(start, end))
}

fn populated(key_start: u32, value_start: u32, value: &str) -> IrField {
    IrField::new(
        at(key_start, key_start + 5),
        Some(LocatedString::new(
            at(value_start, value_start + value.len() as u32),
            value.to_string(),
        )),
    )
}

fn unpopulated(key_start: u32) -> IrField {
    IrField::new(at(key_start, key_start + 5), None)
}

fn fields_of(entries: Vec<(AllowedFieldName, IrField)>) -> FieldMap {
    let mut fields = FieldMap::new();
    for (name, field) in entries {
        fields.insert(name, field);
    }
    fields
}

fn representation(fields: FieldMap) -> UntypedDocblockRepresentation {
    UntypedDocblockRepresentation {
        description: None,
        fields,
        source_hash: ResolverSourceHash::new("0123abcd".to_string()),
    }
}

fn resolve(
    entries: Vec<(AllowedFieldName, IrField)>,
    definitions: Option<&Vec<ExecutableDefinition>>,
    parse_options: &ParseOptions<'_>,
) -> Result<Option<DocblockIr>, Vec<Diagnostic>> {
    parse_docblock_ir(
        &ProjectName::Default,
        representation(fields_of(entries)),
        definitions,
        parse_options,
        at(0, 200),
    )
}

fn terse(ir: Option<DocblockIr>) -> TerseRelayResolverIr {
    match ir {
        Some(DocblockIr::Field(ResolverFieldDocblockIr::TerseRelayResolver(terse))) => terse,
        other => panic!("expected a terse resolver, got {:?}", other),
    }
}

fn strong(ir: Option<DocblockIr>) -> StrongObjectIr {
    match ir {
        Some(DocblockIr::Type(ResolverTypeDocblockIr::StrongObjectResolver(strong))) => strong,
        other => panic!("expected a strong object, got {:?}", other),
    }
}

fn weak(ir: Option<DocblockIr>) -> WeakObjectIr {
    match ir {
        Some(DocblockIr::Type(ResolverTypeDocblockIr::WeakObjectType(weak))) => weak,
        other => panic!("expected a weak object, got {:?}", other),
    }
}

fn only(diagnostics: Vec<Diagnostic>) -> Diagnostic {
    assert_eq!(diagnostics.len(), 1);
    diagnostics.into_iter().next().unwrap()
}

fn ir_message(diagnostic: &Diagnostic) -> IrParsingErrorMessages {
    match &diagnostic.message {
        DiagnosticMessage::Ir(message) => message.clone(),
        other => panic!("expected a docblock message, got {:?}", other),
    }
}

fn name(start: u32, text: &str) -> Identifier {
    Identifier::new(Span::new(start, start + text.len() as u32), text.to_string())
}

fn text_value(start: u32, text: &str) -> ConstantValue {
    ConstantValue::String(StringNode {
        span: Span::new(start, start + text.len() as u32 + 2),
        value: text.to_string(),
    })
}

fn object(fields: Vec<(&str, ConstantValue)>) -> Value {
    Value::Constant(ConstantValue::Object {
        span: Span::new(0, 0),
        fields: fields
            .into_iter()
            .map(|(field, value)| ConstantArgument {
                span: Span::new(0, 0),
                name: name(0, field),
                value,
            })
            .collect(),
    })
}

fn fragment(
    fragment_name: &str,
    on: &str,
    argument_definitions: Option<Vec<(Identifier, Value)>>,
) -> ExecutableDefinition {
    let directives = match argument_definitions {
        Some(arguments) => vec![Directive {
            span: Span::new(30, 60),
            name: name(31, "argumentDefinitions"),
            arguments: Some(ArgumentList {
                span: Span::new(50, 60),
                items: arguments
                    .into_iter()
                    .map(|(name, value)| Argument {
                        span: name.span,
                        name,
                        value,
                    })
                    .collect(),
            }),
        }],
        None => vec![],
    };
    ExecutableDefinition::Fragment(FragmentDefinition {
        location: in_fragments(0, 100),
        name: name(9, fragment_name),
        type_condition: TypeCondition {
            span: Span::new(20, 20 + 3 + on.len() as u32),
            type_: name(23, on),
        },
        directives,
    })
}

fn operation(operation_name: Option<&str>) -> ExecutableDefinition {
    ExecutableDefinition::Operation(OperationDefinition {
        location: in_fragments(100, 200),
        name: operation_name.map(|text| name(106, text)),
    })
}

#[test]
fn no_resolver_tag_resolves_to_nothing() {
    assert_eq!(resolve(vec![], None, &strict()), Ok(None));
    assert_eq!(
        resolve(
            vec![
                (AllowedFieldName::DeprecatedField, unpopulated(10)),
                (AllowedFieldName::RootFragmentField, populated(20, 30, "userFragment")),
                (AllowedFieldName::WeakField, unpopulated(50)),
            ],
            None,
            &strict()
        ),
        Ok(None)
    );
}

#[test]
fn two_or_three_resolver_tags_are_an_error_at_the_first() {
    let resolver = (AllowedFieldName::RelayResolverField, populated(40, 50, "User"));
    let type_tag = (AllowedFieldName::RelayTypeField, populated(20, 30, "User"));
    let field_tag = (AllowedFieldName::RelayFieldField, unpopulated(10));
    let cases = vec![
        (vec![resolver.clone(), type_tag.clone()], at(40, 45)),
        (vec![resolver.clone(), field_tag.clone()], at(40, 45)),
        (vec![type_tag.clone(), field_tag.clone()], at(20, 25)),
        (vec![field_tag, type_tag, resolver], at(40, 45)),
    ];
    for (entries, location) in cases {
        let diagnostic = only(resolve(entries, None, &strict()).unwrap_err());
        assert_eq!(
            ir_message(&diagnostic),
            IrParsingErrorMessages::MultipleResolverTags
        );
        assert_eq!(diagnostic.location, location);
        assert!(diagnostic.related_information.is_empty());
    }
}

#[test]
fn resolve_tag_takes_the_three_tags_out() {
    let mut fields = fields_of(vec![
        (AllowedFieldName::RelayTypeField, populated(20, 30, "User")),
        (AllowedFieldName::LiveField, unpopulated(40)),
    ]);
    let found = resolve_tag(&mut fields).unwrap();
    assert_eq!(found, Some((UsedTag::RelayType, populated(20, 30, "User"))));
    assert!(!fields.contains_key(AllowedFieldName::RelayTypeField));
    assert!(fields.contains_key(AllowedFieldName::LiveField));
}

#[test]
fn a_tag_without_value_is_an_error() {
    let legacy = only(
        resolve(
            vec![(AllowedFieldName::RelayResolverField, unpopulated(10))],
            None,
            &strict(),
        )
        .unwrap_err(),
    );
    assert_eq!(
        ir_message(&legacy),
        IrParsingErrorMessages::LegacyVerboseSyntaxDeprecated
    );
    assert_eq!(legacy.location, at(10, 15));

    let type_tag = only(
        resolve(
            vec![(AllowedFieldName::RelayTypeField, unpopulated(10))],
            None,
            &strict(),
        )
        .unwrap_err(),
    );
    assert_eq!(
        ir_message(&type_tag),
        IrParsingErrorMessages::FieldWithMissingData {
            field_name: AllowedFieldName::RelayTypeField
        }
    );

    let field_tag = only(
        resolve(
            vec![(AllowedFieldName::RelayFieldField, unpopulated(10))],
            None,
            &strict(),
        )
        .unwrap_err(),
    );
    assert_eq!(
        ir_message(&field_tag),
        IrParsingErrorMessages::FieldWithMissingData {
            field_name: AllowedFieldName::RelayFieldField
        }
    );
    assert_eq!(
        field_tag.message_text(),
        "The resolver field `@relayField` requires data."
    );
}

#[test]
fn the_period_decides_the_kind() {
    assert_eq!(infer_kind("Foo.bar: String", false), ResolverKind::TerseField);
    assert_eq!(infer_kind("Foo.bar: String", true), ResolverKind::TerseField);
    assert_eq!(infer_kind(".", true), ResolverKind::TerseField);
    assert_eq!(infer_kind("User", true), ResolverKind::WeakObject);
    assert_eq!(infer_kind("User", false), ResolverKind::StrongObject);
    assert_eq!(infer_kind("", false), ResolverKind::StrongObject);
}

#[test]
fn terse_value_round_trip() {
    let ir = terse(
        resolve(
            vec![(
                AllowedFieldName::RelayFieldField,
                populated(10, 20, "Foo.bar(x: Int): String"),
            )],
            None,
            &strict(),
        )
        .unwrap(),
    );
    assert_eq!(ir.type_.item, "Foo");
    assert_eq!(ir.type_.location, at(20, 23));
    assert_eq!(ir.field.name, name(24, "bar"));
    let arguments = ir.field.arguments.unwrap();
    assert_eq!(arguments.span, Span::new(27, 35));
    assert_eq!(arguments.items.len(), 1);
    assert_eq!(arguments.items[0].name, name(28, "x"));
    assert_eq!(arguments.items[0].type_, TypeAnnotation::Named(name(31, "Int")));
    assert_eq!(arguments.items[0].default_value, None);
    assert_eq!(ir.field.type_, TypeAnnotation::Named(name(37, "String")));
    assert!(ir.field.directives.is_empty());
    assert_eq!(ir.field.description, None);
    assert_eq!(ir.root_fragment, None);
    assert_eq!(ir.return_fragment, None);
    assert_eq!(ir.fragment_arguments, None);
    assert_eq!(ir.semantic_non_null, None);
    assert_eq!(ir.location, at(0, 200));
    assert_eq!(ir.source_hash, ResolverSourceHash::new("0123abcd".to_string()));
    assert!(!ir.type_confirmed);
    assert_eq!(ir.property_lookup_name, None);
}

#[test]
fn the_description_of_the_docblock_becomes_that_of_the_field() {
    let mut docblock = representation(fields_of(vec![
        (AllowedFieldName::RelayFieldField, populated(10, 20, "Foo.bar: String")),
        (AllowedFieldName::ReturnFragmentField, populated(40, 50, "barFragment")),
        (AllowedFieldName::DeprecatedField, populated(70, 80, "use baz")),
        (AllowedFieldName::LiveField, unpopulated(90)),
    ]));
    docblock.description = Some(LocatedString::new(at(3, 9), "A bar.".to_string()));
    let ir = terse(
        parse_docblock_ir(&ProjectName::Default, docblock, None, &strict(), at(0, 200)).unwrap(),
    );
    assert_eq!(
        ir.field.description,
        Some(StringNode {
            span: Span::new(3, 9),
            value: "A bar.".to_string()
        })
    );
    assert_eq!(
        ir.return_fragment,
        Some(LocatedString::new(at(50, 61), "barFragment".to_string()))
    );
    assert_eq!(ir.deprecated, Some(populated(70, 80, "use baz")));
    assert_eq!(ir.live.unwrap().key_location, at(90, 95));
}

#[test]
fn weak_field_makes_a_weak_object() {
    let ir = weak(
        resolve(
            vec![
                (AllowedFieldName::RelayTypeField, populated(10, 20, "User")),
                (AllowedFieldName::WeakField, unpopulated(30)),
            ],
            None,
            &strict(),
        )
        .unwrap(),
    );
    assert_eq!(ir.typename, name(20, "User"));
    assert_eq!(ir.rhs_location, at(20, 24));
    assert_eq!(ir.hack_source, None);
    assert_eq!(ir.deprecated, None);
    assert!(ir.implements_interfaces.is_empty());
    assert_eq!(ir.location, at(0, 200));
    assert!(!ir.type_confirmed);
}

#[test]
fn a_weak_field_with_a_value_is_an_error() {
    let diagnostic = only(
        resolve(
            vec![
                (AllowedFieldName::RelayTypeField, populated(10, 20, "User")),
                (AllowedFieldName::WeakField, populated(30, 40, "yes")),
            ],
            None,
            &strict(),
        )
        .unwrap_err(),
    );
    assert_eq!(
        ir_message(&diagnostic),
        IrParsingErrorMessages::FieldWithUnexpectedData {
            field_name: AllowedFieldName::WeakField
        }
    );
    assert_eq!(diagnostic.location, at(30, 35));
    assert_eq!(
        diagnostic.message_text(),
        "The resolver field `@weak` does not accept data. Remove everything after `@weak`."
    );
}

#[test]
fn a_weak_object_is_a_name_and_nothing_else() {
    let entries = vec![
        (
            AllowedFieldName::RelayTypeField,
            populated(10, 20, "User implements Node"),
        ),
        (AllowedFieldName::WeakField, unpopulated(50)),
    ];
    let diagnostic = only(resolve(entries.clone(), None, &strict()).unwrap_err());
    assert_eq!(
        ir_message(&diagnostic),
        IrParsingErrorMessages::RemainingCharsWhenParsingIdentifier {
            user_provided: "User implements Node".to_string(),
            parsed: "User".to_string(),
        }
    );
    assert_eq!(diagnostic.location, at(20, 40));
    assert_eq!(
        diagnostic.message_text(),
        "The compiler attempted to parse \"User implements Node\" as a GraphQL type (e.g. `Viewer` or `User`), but had unparsed characters remaining. Try removing everything after \"User\"."
    );

    let with_interfaces = options(&ENABLED, &DISABLED, &DISABLED);
    let ir = weak(resolve(entries, None, &with_interfaces).unwrap());
    assert_eq!(ir.typename, name(20, "User"));
    assert_eq!(ir.implements_interfaces, vec![name(36, "Node")]);
}

#[test]
fn strong_object_has_a_stable_root_fragment_name() {
    let build = |project: &ProjectName| {
        strong(
            parse_docblock_ir(
                project,
                representation(fields_of(vec![(
                    AllowedFieldName::RelayTypeField,
                    populated(10, 20, "User"),
                )])),
                None,
                &strict(),
                at(0, 200),
            )
            .unwrap(),
        )
    };
    let project = ProjectName::Named("my_project".to_string());
    let first = build(&project);
    let second = build(&project);
    assert_eq!(first.typename, name(20, "User"));
    assert_eq!(first.root_fragment.item, "my_project__User__id");
    assert_eq!(first.root_fragment, second.root_fragment);
    assert_eq!(first.root_fragment.location, Location::generated());
    assert_eq!(build(&ProjectName::Default).root_fragment.item, "User__id");
    assert_eq!(first.rhs_location, at(20, 24));
    assert_eq!(first.semantic_non_null, None);
    assert_eq!(first.live, None);
    assert!(!first.type_confirmed);
}

#[test]
fn strong_object_names_its_interfaces() {
    let ir = strong(
        resolve(
            vec![
                (
                    AllowedFieldName::RelayTypeField,
                    populated(10, 20, "User implements Node & Entity"),
                ),
                (AllowedFieldName::LiveField, unpopulated(60)),
                (AllowedFieldName::DeprecatedField, unpopulated(70)),
            ],
            None,
            &strict(),
        )
        .unwrap(),
    );
    assert_eq!(
        ir.implements_interfaces,
        vec![name(36, "Node"), name(43, "Entity")]
    );
    assert_eq!(ir.live.unwrap().key_location, at(60, 65));
    assert_eq!(ir.deprecated, Some(unpopulated(70)));
}

#[test]
fn a_type_value_with_a_syntax_error_is_turned_away() {
    let diagnostic = only(
        resolve(
            vec![(AllowedFieldName::RelayTypeField, populated(10, 20, "User implements"))],
            None,
            &strict(),
        )
        .unwrap_err(),
    );
    assert_eq!(
        diagnostic.message,
        DiagnosticMessage::Syntax(SyntaxErrorKind::ExpectedName)
    );
    assert_eq!(diagnostic.location, at(35, 35));

    let trailing = only(
        resolve(
            vec![(AllowedFieldName::RelayTypeField, populated(10, 20, "User !"))],
            None,
            &strict(),
        )
        .unwrap_err(),
    );
    assert_eq!(
        trailing.message,
        DiagnosticMessage::Syntax(SyntaxErrorKind::Expected(TokenKind::EndOfFile))
    );
    assert_eq!(trailing.location, at(25, 26));
    assert_eq!(trailing.message_text(), "Expected end of input");
}

#[test]
fn default_value_is_turned_away_at_its_span() {
    let diagnostic = only(
        resolve(
            vec![(
                AllowedFieldName::RelayFieldField,
                populated(10, 20, "Foo.bar(x: Int = 1): String"),
            )],
            None,
            &strict(),
        )
        .unwrap_err(),
    );
    assert_eq!(
        ir_message(&diagnostic),
        IrParsingErrorMessages::ArgumentDefaultValuesNoSupported
    );
    assert_eq!(diagnostic.location, at(37, 38));
    assert_eq!(
        diagnostic.message_text(),
        "Defining arguments with default values for resolver fields is not supported, yet."
    );
}

#[test]
fn every_default_value_is_reported() {
    let diagnostics = resolve(
        vec![(
            AllowedFieldName::RelayFieldField,
            populated(10, 20, "Foo.bar(x: Int = 1, y: Int, z: [String] = [\"a\"]): String"),
        )],
        None,
        &strict(),
    )
    .unwrap_err();
    assert_eq!(diagnostics.len(), 2);
    assert_eq!(diagnostics[0].location, at(37, 38));
    assert_eq!(diagnostics[1].location, at(62, 67));
    for diagnostic in &diagnostics {
        assert_eq!(
            ir_message(diagnostic),
            IrParsingErrorMessages::ArgumentDefaultValuesNoSupported
        );
    }
}

#[test]
fn a_root_fragment_that_is_not_in_the_file_is_an_error() {
    let definitions = vec![
        fragment("userFragment", "User", None),
        operation(Some("UserQuery")),
        operation(None),
        fragment("otherFragment", "User", None),
    ];
    let diagnostic = only(
        resolve(
            vec![
                (AllowedFieldName::RelayFieldField, populated(10, 20, "User.name: String")),
                (AllowedFieldName::RootFragmentField, populated(40, 50, "missingFragment")),
            ],
            Some(&definitions),
            &strict(),
        )
        .unwrap_err(),
    );
    assert_eq!(
        diagnostic.message,
        DiagnosticMessage::WithData(ErrorMessagesWithData::FragmentNotFound {
            fragment_name: "missingFragment".to_string(),
            suggestions: vec![
                "userFragment".to_string(),
                "UserQuery".to_string(),
                "otherFragment".to_string()
            ],
        })
    );
    assert_eq!(diagnostic.location, at(50, 65));
    assert_eq!(
        diagnostic.get_data(),
        vec![
            "userFragment".to_string(),
            "UserQuery".to_string(),
            "otherFragment".to_string()
        ]
    );
    assert_eq!(
        diagnostic.message_text(),
        "Fragment `missingFragment` not found. Did you mean `userFragment`, `UserQuery`, or `otherFragment`?"
    );

    let without_file = only(
        resolve(
            vec![
                (AllowedFieldName::RelayFieldField, populated(10, 20, "User.name: String")),
                (AllowedFieldName::RootFragmentField, populated(40, 50, "missingFragment")),
            ],
            None,
            &strict(),
        )
        .unwrap_err(),
    );
    assert_eq!(
        without_file.message_text(),
        "Fragment `missingFragment` not found."
    );
}

#[test]
fn a_root_fragment_without_value_is_an_error() {
    let diagnostic = only(
        resolve(
            vec![
                (AllowedFieldName::RelayFieldField, populated(10, 20, "User.name: String")),
                (AllowedFieldName::RootFragmentField, unpopulated(40)),
            ],
            None,
            &strict(),
        )
        .unwrap_err(),
    );
    assert_eq!(
        ir_message(&diagnostic),
        IrParsingErrorMessages::FieldWithMissingData {
            field_name: AllowedFieldName::RootFragmentField
        }
    );
    assert_eq!(diagnostic.location, at(40, 45));
}

#[test]
fn the_arguments_of_the_root_fragment_are_read() {
    let definitions = vec![fragment(
        "userFragment",
        "User",
        Some(vec![
            (
                name(51, "size"),
                object(vec![
                    ("type", text_value(60, "[Int!]")),
                    ("defaultValue", ConstantValue::Null { span: Span::new(70, 74) }),
                ]),
            ),
            (
                name(80, "now"),
                object(vec![
                    ("type", text_value(90, "!!!")),
                    ("provider", text_value(95, "./now")),
                ]),
            ),
            (name(100, "scale"), object(vec![("type", text_value(110, "Float"))])),
        ]),
    )];
    let ir = terse(
        resolve(
            vec![
                (
                    AllowedFieldName::RelayFieldField,
                    populated(10, 20, "User.avatar(width: Int): String"),
                ),
                (AllowedFieldName::RootFragmentField, populated(60, 70, "userFragment")),
            ],
            Some(&definitions),
            &strict(),
        )
        .unwrap(),
    );
    assert_eq!(
        ir.root_fragment,
        Some(LocatedString::new(at(70, 82), "userFragment".to_string()))
    );
    let arguments = ir.fragment_arguments.unwrap();
    assert_eq!(arguments.len(), 2);
    assert_eq!(arguments[0].name, name(51, "size"));
    assert_eq!(
        arguments[0].type_,
        TypeAnnotation::List {
            span: Span::new(0, 6),
            inner: Box::new(TypeAnnotation::NonNull {
                span: Span::new(1, 5),
                inner: Box::new(TypeAnnotation::Named(name(1, "Int"))),
            }),
        }
    );
    assert_eq!(
        arguments[0].default_value,
        Some(ConstantValue::Null { span: Span::new(70, 74) })
    );
    assert_eq!(arguments[1].name, name(100, "scale"));
    assert_eq!(arguments[1].type_, TypeAnnotation::Named(name(0, "Float")));
    assert_eq!(arguments[1].default_value, None);
}

#[test]
fn the_type_of_a_fragment_argument_must_be_a_type() {
    let definitions = vec![fragment(
        "userFragment",
        "User",
        Some(vec![(name(51, "size"), object(vec![("type", text_value(60, "[Int"))]))]),
    )];
    let diagnostic = only(
        resolve(
            vec![
                (AllowedFieldName::RelayFieldField, populated(10, 20, "User.avatar: String")),
                (AllowedFieldName::RootFragmentField, populated(60, 70, "userFragment")),
            ],
            Some(&definitions),
            &strict(),
        )
        .unwrap_err(),
    );
    assert_eq!(
        diagnostic.message,
        DiagnosticMessage::Syntax(SyntaxErrorKind::Expected(TokenKind::CloseBracket))
    );
    assert_eq!(diagnostic.location, in_fragments(4, 4));
}

#[test]
fn field_and_fragment_may_not_share_an_argument() {
    let definitions = vec![fragment(
        "userFragment",
        "User",
        Some(vec![
            (name(51, "scale"), object(vec![("type", text_value(60, "Float"))])),
            (name(70, "size"), object(vec![("type", text_value(80, "Int"))])),
        ]),
    )];
    let diagnostic = only(
        resolve(
            vec![
                (
                    AllowedFieldName::RelayFieldField,
                    populated(10, 20, "User.avatar(width: Int, size: Int, scale: Float): String"),
                ),
                (AllowedFieldName::RootFragmentField, populated(90, 100, "userFragment")),
            ],
            Some(&definitions),
            &strict(),
        )
        .unwrap_err(),
    );
    assert_eq!(
        ir_message(&diagnostic),
        IrParsingErrorMessages::ConflictingArguments
    );
    assert_eq!(diagnostic.location, at(44, 48));
    assert_eq!(diagnostic.related_information.len(), 1);
    assert_eq!(
        diagnostic.related_information[0].message,
        "conflicts with this fragment argument"
    );
    assert_eq!(
        diagnostic.related_information[0].location,
        in_fragments(70, 74)
    );
}

#[test]
fn the_fragment_must_be_on_the_parent_type() {
    let definitions = vec![fragment("pageFragment", "Page", None)];
    let diagnostic = only(
        resolve(
            vec![
                (AllowedFieldName::RelayFieldField, populated(10, 20, "User.name: String")),
                (AllowedFieldName::RootFragmentField, populated(40, 50, "pageFragment")),
            ],
            Some(&definitions),
            &strict(),
        )
        .unwrap_err(),
    );
    assert_eq!(
        ir_message(&diagnostic),
        IrParsingErrorMessages::MismatchRootFragmentTypeConditionTerseSyntax {
            fragment_type_condition: "Page".to_string(),
            parent_type: "User".to_string(),
        }
    );
    assert_eq!(diagnostic.location, at(20, 24));
    assert_eq!(diagnostic.related_information.len(), 1);
    assert_eq!(
        diagnostic.related_information[0].message,
        "with fragment type condition"
    );
    assert_eq!(
        diagnostic.related_information[0].location,
        in_fragments(20, 27)
    );
    assert_eq!(
        diagnostic.message_text(),
        "The type specified in the fragment (`Page`) and the parent type (`User`) are different. Please make sure these are exactly the same."
    );
}

#[test]
fn a_type_that_excludes_null_needs_the_switch() {
    let entries = vec![(
        AllowedFieldName::RelayFieldField,
        populated(10, 20, "User.name: String!"),
    )];
    let diagnostic = only(resolve(entries.clone(), None, &strict()).unwrap_err());
    assert_eq!(
        ir_message(&diagnostic),
        IrParsingErrorMessages::FieldWithNonNullType
    );
    assert_eq!(diagnostic.location, at(31, 38));

    let for_name = FeatureFlag::Limited {
        allowlist: vec!["age".to_string(), "name".to_string()],
    };
    let ir = terse(resolve(entries.clone(), None, &options(&DISABLED, &for_name, &DISABLED)).unwrap());
    assert!(ir.field.type_.is_non_null());

    let for_others = FeatureFlag::Limited {
        allowlist: vec!["age".to_string()],
    };
    assert!(resolve(entries, None, &options(&DISABLED, &for_others, &DISABLED)).is_err());
}

#[test]
fn what_follows_the_parent_type_must_be_a_period() {
    let diagnostic = only(
        resolve(
            vec![(
                AllowedFieldName::RelayFieldField,
                populated(10, 20, "User:name.first: String"),
            )],
            None,
            &strict(),
        )
        .unwrap_err(),
    );
    assert_eq!(
        ir_message(&diagnostic),
        IrParsingErrorMessages::UnexpectedNonDot { found: ':' }
    );
    assert_eq!(diagnostic.location, at(24, 25));
    assert_eq!(
        diagnostic.message_text(),
        "Unexpected character \":\". Expected resolver field to either be a GraphQL typename, or a field definition of the form `ParentType.field_name: ReturnType`."
    );
}

#[test]
fn offsets_count_bytes() {
    let diagnostic = only(
        resolve(
            vec![(
                AllowedFieldName::RelayFieldField,
                populated(10, 20, "User\u{e9}.name: String"),
            )],
            None,
            &strict(),
        )
        .unwrap_err(),
    );
    assert_eq!(
        ir_message(&diagnostic),
        IrParsingErrorMessages::UnexpectedNonDot { found: '\u{e9}' }
    );
    assert_eq!(diagnostic.location, at(24, 25));

    let ir = terse(
        resolve(
            vec![(
                AllowedFieldName::RelayFieldField,
                populated(10, 20, "User.name(\"caf\u{e9}\" x: Int): String"),
            )],
            None,
            &strict(),
        )
        .unwrap(),
    );
    let arguments = ir.field.arguments.unwrap();
    assert_eq!(
        arguments.items[0].description,
        Some(StringNode {
            span: Span::new(30, 37),
            value: "caf\u{e9}".to_string()
        })
    );
    assert_eq!(arguments.items[0].name, name(38, "x"));
    assert_eq!(ir.field.type_, TypeAnnotation::Named(name(47, "String")));
}

#[test]
fn the_semantic_non_null_directive_is_kept() {
    let ir = terse(
        resolve(
            vec![(
                AllowedFieldName::RelayFieldField,
                populated(10, 20, "User.name: String @live @semanticNonNull(levels: [0, 1])"),
            )],
            None,
            &strict(),
        )
        .unwrap(),
    );
    assert_eq!(ir.field.directives.len(), 2);
    let kept = ir.semantic_non_null.unwrap();
    assert_eq!(kept, ir.field.directives[1]);
    assert_eq!(kept.name, name(45, "semanticNonNull"));
    assert_eq!(kept.span, Span::new(44, 76));
    let arguments = kept.arguments.unwrap();
    assert_eq!(arguments.items.len(), 1);
    assert_eq!(arguments.items[0].name, name(61, "levels"));
    match &arguments.items[0].value {
        ConstantValue::List { span, items } => {
            assert_eq!(*span, Span::new(69, 75));
            assert_eq!(
                items,
                &vec![
                    ConstantValue::Int {
                        span: Span::new(70, 71),
                        text: "0".to_string()
                    },
                    ConstantValue::Int {
                        span: Span::new(73, 74),
                        text: "1".to_string()
                    },
                ]
            );
        }
        other => panic!("expected a list, got {:?}", other),
    }
}

#[test]
fn fields_that_nobody_claims_are_an_error() {
    let diagnostic = only(
        resolve(
            vec![
                (AllowedFieldName::RelayTypeField, populated(10, 20, "User")),
                (AllowedFieldName::DeprecatedField, unpopulated(30)),
                (AllowedFieldName::RootFragmentField, populated(90, 100, "userFragment")),
            ],
            None,
            &strict(),
        )
        .unwrap_err(),
    );
    assert_eq!(
        ir_message(&diagnostic),
        IrParsingErrorMessages::LeftoverFields {
            resolver_type: "StrongObjectResolver",
            field_string: "@rootFragment".to_string(),
        }
    );
    assert_eq!(diagnostic.location, at(10, 15));
    assert_eq!(diagnostic.related_information.len(), 1);
    assert_eq!(diagnostic.related_information[0].message, "Unexpected field");
    assert_eq!(diagnostic.related_information[0].location, at(90, 95));
    assert_eq!(
        diagnostic.message_text(),
        "The compiler attempted to parse this resolver block as a StrongObjectResolver, but there were unexpected fields: @rootFragment."
    );
}

#[test]
fn leftover_fields_are_named_alphabetically_and_noted_in_order() {
    let diagnostic = only(
        resolve(
            vec![
                (AllowedFieldName::RelayFieldField, populated(10, 20, "User.name: String")),
                (AllowedFieldName::WeakField, unpopulated(30)),
                (AllowedFieldName::OnTypeField, populated(90, 100, "User")),
                (AllowedFieldName::EdgeToField, populated(60, 70, "Page")),
                (AllowedFieldName::LiveField, unpopulated(40)),
            ],
            None,
            &strict(),
        )
        .unwrap_err(),
    );
    assert_eq!(
        ir_message(&diagnostic),
        IrParsingErrorMessages::LeftoverFields {
            resolver_type: "TerseRelayResolver",
            field_string: "@edgeTo, @onType, and @weak".to_string(),
        }
    );
    let noted: Vec<Location> = diagnostic
        .related_information
        .iter()
        .map(|note| note.location)
        .collect();
    assert_eq!(noted, vec![at(30, 35), at(60, 65), at(90, 95)]);

    let two = only(
        resolve(
            vec![
                (AllowedFieldName::RelayTypeField, populated(10, 20, "User")),
                (AllowedFieldName::WeakField, unpopulated(30)),
                (AllowedFieldName::LiveField, unpopulated(50)),
                (AllowedFieldName::FieldNameField, populated(40, 45, "name")),
            ],
            None,
            &strict(),
        )
        .unwrap_err(),
    );
    assert_eq!(
        ir_message(&two),
        IrParsingErrorMessages::LeftoverFields {
            resolver_type: "WeakObjectType",
            field_string: "@fieldName, and @live".to_string(),
        }
    );
}

#[test]
fn a_failed_build_hides_the_fields_left_over() {
    let diagnostic = only(
        resolve(
            vec![
                (AllowedFieldName::RelayFieldField, populated(10, 20, "User.name String")),
                (AllowedFieldName::OnTypeField, populated(90, 100, "User")),
            ],
            None,
            &strict(),
        )
        .unwrap_err(),
    );
    assert_eq!(
        diagnostic.message,
        DiagnosticMessage::Syntax(SyntaxErrorKind::Expected(TokenKind::Colon))
    );
    assert_eq!(diagnostic.location, at(30, 36));
}

fn built(kind_is_type: bool) -> DocblockIr {
    let (tag, value) = if kind_is_type {
        (AllowedFieldName::RelayTypeField, "User")
    } else {
        (AllowedFieldName::RelayFieldField, "User.name: String")
    };
    resolve(vec![(tag, populated(10, 20, value))], None, &strict())
        .unwrap()
        .unwrap()
}

#[test]
fn the_tag_must_fit_what_was_built() {
    let tags = [UsedTag::RelayResolver, UsedTag::RelayType, UsedTag::RelayField];
    for legacy_allowed in [false, true] {
        let legacy = if legacy_allowed { ENABLED } else { DISABLED };
        let parse_options = options(&DISABLED, &DISABLED, &legacy);
        for tag in tags {
            for is_type in [true, false] {
                let expected = match (tag, is_type) {
                    (UsedTag::RelayResolver, _) if legacy_allowed => None,
                    (UsedTag::RelayResolver, true) => Some(ErrorMessagesWithData::UseRelayTypeTag),
                    (UsedTag::RelayResolver, false) => {
                        Some(ErrorMessagesWithData::UseRelayFieldTag)
                    }
                    (UsedTag::RelayType, true) => None,
                    (UsedTag::RelayType, false) => {
                        Some(ErrorMessagesWithData::RelayTypeTagUsedForField)
                    }
                    (UsedTag::RelayField, true) => {
                        Some(ErrorMessagesWithData::RelayFieldTagUsedForType)
                    }
                    (UsedTag::RelayField, false) => None,
                };
                let result =
                    check_resolver_tag_validity(tag, &built(is_type), &parse_options, at(10, 15));
                match expected {
                    None => assert_eq!(result, Ok(())),
                    Some(message) => {
                        let diagnostic = only(result.unwrap_err());
                        assert_eq!(diagnostic.message, DiagnosticMessage::WithData(message));
                        assert_eq!(diagnostic.location, at(10, 15));
                    }
                }
            }
        }
    }
}

#[test]
fn the_legacy_tag_is_allowed_by_name() {
    let for_user = FeatureFlag::Limited {
        allowlist: vec!["User".to_string()],
    };
    let parse_options = options(&DISABLED, &DISABLED, &for_user);
    let legacy_type = vec![(AllowedFieldName::RelayResolverField, populated(10, 20, "User"))];
    assert_eq!(
        strong(resolve(legacy_type, None, &parse_options).unwrap()).typename,
        name(20, "User")
    );

    let legacy_field = vec![(
        AllowedFieldName::RelayResolverField,
        populated(10, 20, "User.name: String"),
    )];
    let diagnostic = only(resolve(legacy_field, None, &parse_options).unwrap_err());
    assert_eq!(
        diagnostic.message,
        DiagnosticMessage::WithData(ErrorMessagesWithData::UseRelayFieldTag)
    );
    assert_eq!(diagnostic.location, at(10, 15));
    assert_eq!(diagnostic.get_data(), vec!["relayField".to_string()]);
    assert_eq!(
        diagnostic.message_text(),
        "Unexpected `@RelayResolver` for a field definition. Expected `@relayField`. The legacy `@RelayResolver` tag can be enabled with the `allow_legacy_relay_resolver_tag` feature flag."
    );

    let wrong_tag = only(
        resolve(
            vec![(AllowedFieldName::RelayFieldField, populated(10, 20, "User"))],
            None,
            &strict(),
        )
        .unwrap_err(),
    );
    assert_eq!(
        wrong_tag.message,
        DiagnosticMessage::WithData(ErrorMessagesWithData::RelayFieldTagUsedForType)
    );
    assert_eq!(wrong_tag.get_data(), vec!["relayType".to_string()]);
}
