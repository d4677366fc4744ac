use relay_docblock::errors::{
    did_you_mean, syntax_message, Diagnostic, DiagnosticMessage, ErrorMessagesWithData,
    IrParsingErrorMessages, SchemaValidationErrorMessages, UntypedRepresentationErrorMessages,
};
use relay_docblock::lexer::TokenKind;
use relay_docblock::location::{Location, SourceLocationKey, Span};
use relay_docblock::syntax::{SyntaxError, SyntaxErrorKind};
use relay_docblock::untyped_representation::AllowedFieldName;

fn texts(names: &[&str]) -> Vec<String> {
    names.iter().map(|name| name.to_string()).collect()
}

#[test]
fn suggestions_are_offered_as_a_question() {
    assert_eq!(did_you_mean(&texts(&[])), "");
    assert_eq!(did_you_mean(&texts(&["a"])), " Did you mean `a`?");
    assert_eq!(did_you_mean(&texts(&["a", "b"])), " Did you mean `a` or `b`?");
    assert_eq!(
        did_you_mean(&texts(&["a", "b", "c"])),
        " Did you mean `a`, `b`, or `c`?"
    );
    assert_eq!(
        did_you_mean(&texts(&["a", "b", "c", "d"])),
        " Did you mean `a`, `b`, `c`, or `d`?"
    );
}

#[test]
fn tag_names() {
    let all = [
        (AllowedFieldName::RelayResolverField, "RelayResolver"),
        (AllowedFieldName::DeprecatedField, "deprecated"),
        (AllowedFieldName::EdgeToField, "edgeTo"),
        (AllowedFieldName::FieldNameField, "fieldName"),
        (AllowedFieldName::LiveField, "live"),
        (AllowedFieldName::OnInterfaceField, "onInterface"),
        (AllowedFieldName::OnTypeField, "onType"),
        (AllowedFieldName::OutputTypeField, "outputType"),
        (AllowedFieldName::RelayFieldField, "relayField"),
        (AllowedFieldName::RelayTypeField, "relayType"),
        (AllowedFieldName::ReturnFragmentField, "returnFragment"),
        (AllowedFieldName::RootFragmentField, "rootFragment"),
        (AllowedFieldName::WeakField, "weak"),
    ];
    for (index, (field_name, text)) in all.iter().enumerate() {
        assert_eq!(field_name.name(), *text);
        assert_eq!(field_name.index(), index);
        assert_eq!(AllowedFieldName::from_index(index), *field_name);
    }
    let mut sorted: Vec<&str> = all.iter().map(|(_, text)| *text).collect();
    sorted.sort();
    let listed: Vec<&str> = all.iter().map(|(_, text)| *text).collect();
    assert_eq!(sorted, listed);
}

#[test]
fn messages_of_docblock_errors() {
    assert_eq!(
        IrParsingErrorMessages::ConflictingArguments.message(),
        "Unexpected conflicting argument name. This field argument"
    );
    assert_eq!(
        IrParsingErrorMessages::FieldWithNonNullType.message(),
        "Unexpected Relay Resolver field with non-nullable type. Relay expects all Resolver fields to be nullable since errors thrown by Resolvers are turned into `null` values."
    );
    assert_eq!(
        IrParsingErrorMessages::LegacyVerboseSyntaxDeprecated.message(),
        "Legacy verbose resolver syntax (@onType, @onInterface, @fieldName) is deprecated. Use the terse syntax instead: @relayField ParentType.fieldName: ReturnType"
    );
    assert_eq!(
        IrParsingErrorMessages::MultipleResolverTags.message(),
        "Unexpected multiple resolver tags. Expected exactly one of `@RelayResolver`, `@relayType`, or `@relayField`."
    );
    assert_eq!(
        IrParsingErrorMessages::UnexpectedNonDot { found: '\u{e9}' }.message(),
        "Unexpected character \"\u{e9}\". Expected resolver field to either be a GraphQL typename, or a field definition of the form `ParentType.field_name: ReturnType`."
    );
    assert_eq!(
        IrParsingErrorMessages::LeftoverFields {
            resolver_type: "WeakObjectType",
            field_string: "@live, and @weak".to_string()
        }
        .message(),
        "The compiler attempted to parse this resolver block as a WeakObjectType, but there were unexpected fields: @live, and @weak."
    );
}

#[test]
fn messages_with_data() {
    let not_found = ErrorMessagesWithData::TypeNotFound {
        name: "Usr".to_string(),
        suggestions: texts(&["User", "Users"]),
    };
    assert_eq!(
        not_found.message(),
        "The type `Usr` is not an existing GraphQL type. Did you mean `User` or `Users`?"
    );
    assert_eq!(not_found.get_data(), texts(&["User", "Users"]));
    assert_eq!(
        ErrorMessagesWithData::UseRelayTypeTag.message(),
        "Unexpected `@RelayResolver` for a type definition. Expected `@relayType`. The legacy `@RelayResolver` tag can be enabled with the `allow_legacy_relay_resolver_tag` feature flag."
    );
    assert_eq!(
        ErrorMessagesWithData::RelayTypeTagUsedForField.message(),
        "Unexpected `@relayType` for a field definition. Expected `@relayField`."
    );
    assert_eq!(
        ErrorMessagesWithData::RelayFieldTagUsedForType.message(),
        "Unexpected `@relayField` for a type definition. Expected `@relayType`."
    );
    assert_eq!(
        ErrorMessagesWithData::UseRelayTypeTag.get_data(),
        texts(&["relayType"])
    );
    assert_eq!(
        ErrorMessagesWithData::UseRelayFieldTag.get_data(),
        texts(&["relayField"])
    );
    assert_eq!(
        ErrorMessagesWithData::RelayTypeTagUsedForField.get_data(),
        texts(&["relayField"])
    );
    assert_eq!(
        ErrorMessagesWithData::RelayFieldTagUsedForType.get_data(),
        texts(&["relayType"])
    );
}

#[test]
fn messages_of_other_stages() {
    assert_eq!(
        UntypedRepresentationErrorMessages::UnknownField {
            field_name: "foo".to_string()
        }
        .message(),
        "Unexpected docblock field `@foo`"
    );
    assert_eq!(
        UntypedRepresentationErrorMessages::DuplicateField {
            field_name: AllowedFieldName::LiveField
        }
        .message(),
        "Unexpected duplicate docblock field `@live`"
    );
    assert_eq!(
        UntypedRepresentationErrorMessages::MultipleDescriptions.message(),
        "Unexpected free text. Free text in a resolver docblock is treated as the field's human-readable description. Only one description is permitted."
    );
    assert_eq!(
        SchemaValidationErrorMessages::ResolversCantImplementId {
            id_field_name: "id".to_string()
        }
        .message(),
        "Relay Resolvers may not be used to implement the `id` field."
    );
    assert_eq!(
        SchemaValidationErrorMessages::UnexpectedServerInterface {
            interface_name: "Node".to_string()
        }
        .message(),
        "The interface `Node` is not defined in a client schema extension. Resolver types that implement interfaces can only implement client-defined interfaces."
    );
    assert_eq!(
        SchemaValidationErrorMessages::InterfaceWithNoIdField {
            interface_name: "Node".to_string()
        }
        .message(),
        "Expected interface `Node` to define an `id: ID!` field."
    );
    assert_eq!(
        SchemaValidationErrorMessages::InterfaceWithWrongIdField {
            interface_name: "Node".to_string(),
            invalid_type_string: "String".to_string()
        }
        .message(),
        "Expected interface `Node` to define an `id: ID!` field. It defines an id field, but its type is `String`."
    );
    assert_eq!(
        SchemaValidationErrorMessages::DisallowedMutationResolvers {
            mutation_type_name: "Mutation".to_string()
        }
        .message(),
        "Resolvers on the mutation type Mutation are disallowed without the enable_relay_resolver_mutations feature flag"
    );
    assert_eq!(
        SchemaValidationErrorMessages::MutationResolverNonScalarReturn {
            resolver_field_name: "save".to_string(),
            actual_return_type: "User".to_string()
        }
        .message(),
        "Mutation resolver save must return a scalar or enum type, got User"
    );
    assert_eq!(
        SchemaValidationErrorMessages::ClientEdgeToClientWeakType.message(),
        "Relay Resolvers that return weak types defined in client schema extensions are not supported. Prefer defining the return type using a `@weak` Relay Resolver type: https://relay.dev/docs/next/guides/relay-resolvers/defining-types/#defining-a-weak-type"
    );
}

#[test]
fn messages_of_syntax_errors() {
    assert_eq!(
        syntax_message(SyntaxErrorKind::ExpectedName),
        "Expected a non-variable identifier (e.g. 'x' or 'Foo')"
    );
    assert_eq!(
        syntax_message(SyntaxErrorKind::Expected(TokenKind::Colon)),
        "Expected `:`"
    );
    assert_eq!(
        syntax_message(SyntaxErrorKind::Malformed(TokenKind::UnterminatedString)),
        "Unterminated string literal"
    );
    let diagnostic = Diagnostic::syntax(
        SyntaxError {
            kind: SyntaxErrorKind::ExpectedType,
            span: Span::new(3, 4),
        },
        SourceLocationKey::embedded(7, 2),
    );
    assert_eq!(
        diagnostic.message,
        DiagnosticMessage::Syntax(SyntaxErrorKind::ExpectedType)
    );
    assert_eq!(
        diagnostic.location,
        Location::new(SourceLocationKey::embedded(7, 2), Span::new(3, 4))
    );
    assert_eq!(
        diagnostic.message_text(),
        "Expected a type annotation (e.g. '[Int!]')"
    );
    assert!(diagnostic.get_data().is_empty());
}

#[test]
fn notes_are_added_behind_one_another() {
    let here = Location::new(SourceLocationKey::generated(), Span::new(1, 2));
    let there = Location::new(SourceLocationKey::standalone(4), Span::new(5, 6));
    let diagnostic = Diagnostic::ir(IrParsingErrorMessages::ConflictingArguments, here)
        .annotate("first", there)
        .annotate("second", here);
    assert_eq!(diagnostic.location, here);
    assert_eq!(diagnostic.related_information.len(), 2);
    assert_eq!(diagnostic.related_information[0].message, "first");
    assert_eq!(diagnostic.related_information[0].location, there);
    assert_eq!(diagnostic.related_information[1].message, "second");
    assert_eq!(diagnostic.related_information[1].location, here);
}

#[test]
fn locations_are_ordered_by_source_then_span() {
    let location = |key: SourceLocationKey, start: u32, end: u32| {
        Location::new(key, Span::new(start, end))
    };
    let ordered = [
        location(SourceLocationKey::embedded(1, 0), 9, 9),
        location(SourceLocationKey::embedded(1, 1), 0, 1),
        location(SourceLocationKey::embedded(2, 0), 0, 1),
        location(SourceLocationKey::standalone(0), 0, 1),
        location(SourceLocationKey::standalone(0), 0, 2),
        location(SourceLocationKey::standalone(0), 1, 1),
        location(SourceLocationKey::generated(), 0, 0),
    ];
    for (i, first) in ordered.iter().enumerate() {
        for (j, second) in ordered.iter().enumerate() {
            assert_eq!(first.le(second), i <= j);
        }
    }
    assert!(SourceLocationKey::generated().is_generated());
    assert!(!SourceLocationKey::standalone(0).is_generated());
    assert!(Span::new(2, 8).contains(Span::new(2, 8)));
    assert!(Span::new(2, 8).contains(Span::new(3, 3)));
    assert!(!Span::new(2, 8).contains(Span::new(1, 3)));
    assert!(!Span::new(2, 8).contains(Span::new(7, 9)));
    assert_eq!(Span::empty(), Span::new(0, 0));
    assert!(ordered[4].contains(Span::new(1, 2)));
    assert_eq!(
        ordered[4].with_span(Span::new(5, 6)),
        location(SourceLocationKey::standalone(0), 5, 6)
    );
}
