//! The messages of docblock diagnostics, and the diagnostics themselves.

use vstd::prelude::*;
use vstd::string::StringExecFns;
use crate::location::{Location, SourceLocationKey};
use crate::syntax::{SyntaxError, SyntaxErrorKind};
use crate::lexer::TokenKind;
use crate::untyped_representation::AllowedFieldName;

verus! {

/// A string that holds the one character `c`.
///
/// Calls `String::from` of the standard library on a `char`; the contract
/// says that the string it makes consists of that character alone.
#[verifier::external_body]
fn char_string(c: char) -> (text: String)
    ensures
        text@ == seq![c],
{
    String::from(c)
}

/// The texts one after another.
fn concat(first: &str, second: &str, third: &str) -> (text: String)
    ensures
        text@ == first@ + second@ + third@,
{
    let mut text = String::from_str(first);
    text.append(second);
    text.append(third);
    text
}

/// The names in backquotes, separated by a comma and a space: the first
/// `count` of `names`.
pub open spec fn spec_quoted_list(names: Seq<Seq<char>>, count: int) -> Seq<char>
    decreases count,
{
    if count <= 0 {
        Seq::empty()
    } else if count == 1 {
        "`"@ + names[0] + "`"@
    } else {
        spec_quoted_list(names, count - 1) + ", `"@ + names[count - 1] + "`"@
    }
}

/// The question that offers `suggestions` to the reader; nothing if there
/// are none. Two are joined by `or`, more by commas with `or` before the
/// last.
pub open spec fn spec_did_you_mean(suggestions: Seq<Seq<char>>) -> Seq<char> {
    if suggestions.len() == 0 {
        Seq::empty()
    } else if suggestions.len() == 1 {
        " Did you mean `"@ + suggestions[0] + "`?"@
    } else if suggestions.len() == 2 {
        " Did you mean `"@ + suggestions[0] + "` or `"@ + suggestions[1] + "`?"@
    } else {
        " Did you mean "@ + spec_quoted_list(suggestions, suggestions.len() - 1) + ", or `"@
            + suggestions.last() + "`?"@
    }
}

/// The question that offers `suggestions` to the reader.
pub fn did_you_mean(suggestions: &Vec<String>) -> (text: String)
    ensures
        text@ == spec_did_you_mean(suggestions.deep_view()),
{
    let ghost names = suggestions.deep_view();
    let count = suggestions.len();
    if count == 0 {
        String::new()
    } else if count == 1 {
        concat(" Did you mean `", suggestions[0].as_str(), "`?")
    } else if count == 2 {
        let mut text = concat(" Did you mean `", suggestions[0].as_str(), "` or `");
        text.append(suggestions[1].as_str());
        text.append("`?");
        text
    } else {
        let mut list = concat("`", suggestions[0].as_str(), "`");
        let mut i: usize = 1;
        while i < count - 1
            invariant
                1 <= i <= count - 1,
                count == suggestions.len(),
                names == suggestions.deep_view(),
                list@ == spec_quoted_list(names, i as int),
            decreases count - i,
        {
            list.append(", `");
            list.append(suggestions[i].as_str());
            list.append("`");
            i += 1;
        }
        let mut text = concat(" Did you mean ", list.as_str(), ", or `");
        text.append(suggestions[count - 1].as_str());
        text.append("`?");
        text
    }
}

/// What went wrong while a docblock was split into fields.
#[derive(Clone, Debug, PartialEq, Eq)]
pub enum UntypedRepresentationErrorMessages {
    UnknownField { field_name: String },
    DuplicateField { field_name: AllowedFieldName },
    MultipleDescriptions,
}

impl UntypedRepresentationErrorMessages {
    pub open spec fn spec_message(&self) -> Seq<char> {
        match self {
            UntypedRepresentationErrorMessages::UnknownField { field_name } =>
                "Unexpected docblock field `@"@ + field_name@ + "`"@,
            UntypedRepresentationErrorMessages::DuplicateField { field_name } =>
                "Unexpected duplicate docblock field `@"@ + field_name.spec_name() + "`"@,
            UntypedRepresentationErrorMessages::MultipleDescriptions =>
                "Unexpected free text. Free text in a resolver docblock is treated as the field's human-readable description. Only one description is permitted."@,
        }
    }

    /// The message as the reader sees it.
    pub fn message(&self) -> (text: String)
        ensures
            text@ == self.spec_message(),
    {
        match self {
            UntypedRepresentationErrorMessages::UnknownField { field_name } => concat(
                "Unexpected docblock field `@",
                field_name.as_str(),
                "`",
            ),
            UntypedRepresentationErrorMessages::DuplicateField { field_name } => concat(
                "Unexpected duplicate docblock field `@",
                field_name.name(),
                "`",
            ),
            UntypedRepresentationErrorMessages::MultipleDescriptions => String::from_str(
                "Unexpected free text. Free text in a resolver docblock is treated as the field's human-readable description. Only one description is permitted.",
            ),
        }
    }
}

/// What went wrong while the fields of a docblock were resolved.
#[derive(Clone, Debug, PartialEq, Eq)]
pub enum IrParsingErrorMessages {
    ConflictingArguments,
    RemainingCharsWhenParsingIdentifier { user_provided: String, parsed: String },
    FieldWithUnexpectedData { field_name: AllowedFieldName },
    FieldWithMissingData { field_name: AllowedFieldName },
    FieldWithNonNullType,
    LeftoverFields { resolver_type: &'static str, field_string: String },
    ArgumentDefaultValuesNoSupported,
    MismatchRootFragmentTypeConditionTerseSyntax {
        fragment_type_condition: String,
        parent_type: String,
    },
    UnexpectedNonDot { found: char },
    LegacyVerboseSyntaxDeprecated,
    MultipleResolverTags,
}

pub enum IrParsingErrorMessagesView {
    ConflictingArguments,
    RemainingCharsWhenParsingIdentifier { user_provided: Seq<char>, parsed: Seq<char> },
    FieldWithUnexpectedData { field_name: AllowedFieldName },
    FieldWithMissingData { field_name: AllowedFieldName },
    FieldWithNonNullType,
    LeftoverFields { resolver_type: Seq<char>, field_string: Seq<char> },
    ArgumentDefaultValuesNoSupported,
    MismatchRootFragmentTypeConditionTerseSyntax {
        fragment_type_condition: Seq<char>,
        parent_type: Seq<char>,
    },
    UnexpectedNonDot { found: char },
    LegacyVerboseSyntaxDeprecated,
    MultipleResolverTags,
}

impl DeepView for IrParsingErrorMessages {
    type V = IrParsingErrorMessagesView;

    open spec fn deep_view(&self) -> IrParsingErrorMessagesView {
        match self {
            IrParsingErrorMessages::ConflictingArguments =>
                IrParsingErrorMessagesView::ConflictingArguments,
            IrParsingErrorMessages::RemainingCharsWhenParsingIdentifier {
                user_provided,
                parsed,
            } => IrParsingErrorMessagesView::RemainingCharsWhenParsingIdentifier {
                user_provided: user_provided@,
                parsed: parsed@,
            },
            IrParsingErrorMessages::FieldWithUnexpectedData { field_name } =>
                IrParsingErrorMessagesView::FieldWithUnexpectedData { field_name: *field_name },
            IrParsingErrorMessages::FieldWithMissingData { field_name } =>
                IrParsingErrorMessagesView::FieldWithMissingData { field_name: *field_name },
            IrParsingErrorMessages::FieldWithNonNullType =>
                IrParsingErrorMessagesView::FieldWithNonNullType,
            IrParsingErrorMessages::LeftoverFields { resolver_type, field_string } =>
                IrParsingErrorMessagesView::LeftoverFields {
                    resolver_type: resolver_type@,
                    field_string: field_string@,
                },
            IrParsingErrorMessages::ArgumentDefaultValuesNoSupported =>
                IrParsingErrorMessagesView::ArgumentDefaultValuesNoSupported,
            IrParsingErrorMessages::MismatchRootFragmentTypeConditionTerseSyntax {
                fragment_type_condition,
                parent_type,
            } => IrParsingErrorMessagesView::MismatchRootFragmentTypeConditionTerseSyntax {
                fragment_type_condition: fragment_type_condition@,
                parent_type: parent_type@,
            },
            IrParsingErrorMessages::UnexpectedNonDot { found } =>
                IrParsingErrorMessagesView::UnexpectedNonDot { found: *found },
            IrParsingErrorMessages::LegacyVerboseSyntaxDeprecated =>
                IrParsingErrorMessagesView::LegacyVerboseSyntaxDeprecated,
            IrParsingErrorMessages::MultipleResolverTags =>
                IrParsingErrorMessagesView::MultipleResolverTags,
        }
    }
}

impl IrParsingErrorMessagesView {
    pub open spec fn message(self) -> Seq<char> {
        match self {
            IrParsingErrorMessagesView::ConflictingArguments =>
                "Unexpected conflicting argument name. This field argument"@,
            IrParsingErrorMessagesView::RemainingCharsWhenParsingIdentifier {
                user_provided,
                parsed,
            } => "The compiler attempted to parse \""@ + user_provided
                + "\" as a GraphQL type (e.g. `Viewer` or `User`), but had unparsed characters remaining. Try removing everything after \""@
                + parsed + "\"."@,
            IrParsingErrorMessagesView::FieldWithUnexpectedData { field_name } =>
                "The resolver field `@"@ + field_name.spec_name()
                    + "` does not accept data. Remove everything after `@"@
                    + field_name.spec_name() + "`."@,
            IrParsingErrorMessagesView::FieldWithMissingData { field_name } =>
                "The resolver field `@"@ + field_name.spec_name() + "` requires data."@,
            IrParsingErrorMessagesView::FieldWithNonNullType =>
                "Unexpected Relay Resolver field with non-nullable type. Relay expects all Resolver fields to be nullable since errors thrown by Resolvers are turned into `null` values."@,
            IrParsingErrorMessagesView::LeftoverFields { resolver_type, field_string } =>
                "The compiler attempted to parse this resolver block as a "@ + resolver_type
                    + ", but there were unexpected fields: "@ + field_string + "."@,
            IrParsingErrorMessagesView::ArgumentDefaultValuesNoSupported =>
                "Defining arguments with default values for resolver fields is not supported, yet."@,
            IrParsingErrorMessagesView::MismatchRootFragmentTypeConditionTerseSyntax {
                fragment_type_condition,
                parent_type,
            } => "The type specified in the fragment (`"@ + fragment_type_condition
                + "`) and the parent type (`"@ + parent_type
                + "`) are different. Please make sure these are exactly the same."@,
            IrParsingErrorMessagesView::UnexpectedNonDot { found } => "Unexpected character \""@
                + seq![found]
                + "\". Expected resolver field to either be a GraphQL typename, or a field definition of the form `ParentType.field_name: ReturnType`."@,
            IrParsingErrorMessagesView::LegacyVerboseSyntaxDeprecated =>
                "Legacy verbose resolver syntax (@onType, @onInterface, @fieldName) is deprecated. Use the terse syntax instead: @relayField ParentType.fieldName: ReturnType"@,
            IrParsingErrorMessagesView::MultipleResolverTags =>
                "Unexpected multiple resolver tags. Expected exactly one of `@RelayResolver`, `@relayType`, or `@relayField`."@,
        }
    }
}

impl IrParsingErrorMessages {
    /// The message as the reader sees it.
    pub fn message(&self) -> (text: String)
        ensures
            text@ == self.deep_view().message(),
    {
        match self {
            IrParsingErrorMessages::ConflictingArguments => String::from_str(
                "Unexpected conflicting argument name. This field argument",
            ),
            IrParsingErrorMessages::RemainingCharsWhenParsingIdentifier {
                user_provided,
                parsed,
            } => {
                let mut text = concat(
                    "The compiler attempted to parse \"",
                    user_provided.as_str(),
                    "\" as a GraphQL type (e.g. `Viewer` or `User`), but had unparsed characters remaining. Try removing everything after \"",
                );
                text.append(parsed.as_str());
                text.append("\".");
                text
            },
            IrParsingErrorMessages::FieldWithUnexpectedData { field_name } => {
                let mut text = concat(
                    "The resolver field `@",
                    field_name.name(),
                    "` does not accept data. Remove everything after `@",
                );
                text.append(field_name.name());
                text.append("`.");
                text
            },
            IrParsingErrorMessages::FieldWithMissingData { field_name } => concat(
                "The resolver field `@",
                field_name.name(),
                "` requires data.",
            ),
            IrParsingErrorMessages::FieldWithNonNullType => String::from_str(
                "Unexpected Relay Resolver field with non-nullable type. Relay expects all Resolver fields to be nullable since errors thrown by Resolvers are turned into `null` values.",
            ),
            IrParsingErrorMessages::LeftoverFields { resolver_type, field_string } => {
                let mut text = concat(
                    "The compiler attempted to parse this resolver block as a ",
                    resolver_type,
                    ", but there were unexpected fields: ",
                );
                text.append(field_string.as_str());
                text.append(".");
                text
            },
            IrParsingErrorMessages::ArgumentDefaultValuesNoSupported => String::from_str(
                "Defining arguments with default values for resolver fields is not supported, yet.",
            ),
            IrParsingErrorMessages::MismatchRootFragmentTypeConditionTerseSyntax {
                fragment_type_condition,
                parent_type,
            } => {
                let mut text = concat(
                    "The type specified in the fragment (`",
                    fragment_type_condition.as_str(),
                    "`) and the parent type (`",
                );
                text.append(parent_type.as_str());
                text.append("`) are different. Please make sure these are exactly the same.");
                text
            },
            IrParsingErrorMessages::UnexpectedNonDot { found } => {
                let letter = char_string(*found);
                concat(
                    "Unexpected character \"",
                    letter.as_str(),
                    "\". Expected resolver field to either be a GraphQL typename, or a field definition of the form `ParentType.field_name: ReturnType`.",
                )
            },
            IrParsingErrorMessages::LegacyVerboseSyntaxDeprecated => String::from_str(
                "Legacy verbose resolver syntax (@onType, @onInterface, @fieldName) is deprecated. Use the terse syntax instead: @relayField ParentType.fieldName: ReturnType",
            ),
            IrParsingErrorMessages::MultipleResolverTags => String::from_str(
                "Unexpected multiple resolver tags. Expected exactly one of `@RelayResolver`, `@relayType`, or `@relayField`.",
            ),
        }
    }
}

/// What a resolver definition got wrong about the schema it extends.
#[derive(Clone, Debug, PartialEq, Eq)]
pub enum SchemaValidationErrorMessages {
    ResolversCantImplementId { id_field_name: String },
    UnexpectedServerInterface { interface_name: String },
    InterfaceWithNoIdField { interface_name: String },
    InterfaceWithWrongIdField { interface_name: String, invalid_type_string: String },
    DisallowedMutationResolvers { mutation_type_name: String },
    MutationResolverNonScalarReturn { resolver_field_name: String, actual_return_type: String },
    ClientEdgeToClientWeakType,
}

impl SchemaValidationErrorMessages {
    pub open spec fn spec_message(&self) -> Seq<char> {
        match self {
            SchemaValidationErrorMessages::ResolversCantImplementId { id_field_name } =>
                "Relay Resolvers may not be used to implement the `"@ + id_field_name@
                    + "` field."@,
            SchemaValidationErrorMessages::UnexpectedServerInterface { interface_name } =>
                "The interface `"@ + interface_name@
                    + "` is not defined in a client schema extension. Resolver types that implement interfaces can only implement client-defined interfaces."@,
            SchemaValidationErrorMessages::InterfaceWithNoIdField { interface_name } =>
                "Expected interface `"@ + interface_name@ + "` to define an `id: ID!` field."@,
            SchemaValidationErrorMessages::InterfaceWithWrongIdField {
                interface_name,
                invalid_type_string,
            } => "Expected interface `"@ + interface_name@
                + "` to define an `id: ID!` field. It defines an id field, but its type is `"@
                + invalid_type_string@ + "`."@,
            SchemaValidationErrorMessages::DisallowedMutationResolvers { mutation_type_name } =>
                "Resolvers on the mutation type "@ + mutation_type_name@
                    + " are disallowed without the enable_relay_resolver_mutations feature flag"@,
            SchemaValidationErrorMessages::MutationResolverNonScalarReturn {
                resolver_field_name,
                actual_return_type,
            } => "Mutation resolver "@ + resolver_field_name@
                + " must return a scalar or enum type, got "@ + actual_return_type@,
            SchemaValidationErrorMessages::ClientEdgeToClientWeakType =>
                "Relay Resolvers that return weak types defined in client schema extensions are not supported. Prefer defining the return type using a `@weak` Relay Resolver type: https://relay.dev/docs/next/guides/relay-resolvers/defining-types/#defining-a-weak-type"@,
        }
    }

    /// The message as the reader sees it.
    pub fn message(&self) -> (text: String)
        ensures
            text@ == self.spec_message(),
    {
        match self {
            SchemaValidationErrorMessages::ResolversCantImplementId { id_field_name } => concat(
                "Relay Resolvers may not be used to implement the `",
                id_field_name.as_str(),
                "` field.",
            ),
            SchemaValidationErrorMessages::UnexpectedServerInterface { interface_name } => concat(
                "The interface `",
                interface_name.as_str(),
                "` is not defined in a client schema extension. Resolver types that implement interfaces can only implement client-defined interfaces.",
            ),
            SchemaValidationErrorMessages::InterfaceWithNoIdField { interface_name } => concat(
                "Expected interface `",
                interface_name.as_str(),
                "` to define an `id: ID!` field.",
            ),
            SchemaValidationErrorMessages::InterfaceWithWrongIdField {
                interface_name,
                invalid_type_string,
            } => {
                let mut text = concat(
                    "Expected interface `",
                    interface_name.as_str(),
                    "` to define an `id: ID!` field. It defines an id field, but its type is `",
                );
                text.append(invalid_type_string.as_str());
                text.append("`.");
                text
            },
            SchemaValidationErrorMessages::DisallowedMutationResolvers {
                mutation_type_name,
            } => concat(
                "Resolvers on the mutation type ",
                mutation_type_name.as_str(),
                " are disallowed without the enable_relay_resolver_mutations feature flag",
            ),
            SchemaValidationErrorMessages::MutationResolverNonScalarReturn {
                resolver_field_name,
                actual_return_type,
            } => concat(
                "Mutation resolver ",
                resolver_field_name.as_str(),
                " must return a scalar or enum type, got ",
            ).concat(actual_return_type.as_str()),
            SchemaValidationErrorMessages::ClientEdgeToClientWeakType => String::from_str(
                "Relay Resolvers that return weak types defined in client schema extensions are not supported. Prefer defining the return type using a `@weak` Relay Resolver type: https://relay.dev/docs/next/guides/relay-resolvers/defining-types/#defining-a-weak-type",
            ),
        }
    }
}

/// Messages that carry data for tools: names to offer in place of what
/// was written.
#[derive(Clone, Debug, PartialEq, Eq)]
pub enum ErrorMessagesWithData {
    FragmentNotFound { fragment_name: String, suggestions: Vec<String> },
    TypeNotFound { name: String, suggestions: Vec<String> },
    UseRelayTypeTag,
    UseRelayFieldTag,
    RelayTypeTagUsedForField,
    RelayFieldTagUsedForType,
}

pub enum ErrorMessagesWithDataView {
    FragmentNotFound { fragment_name: Seq<char>, suggestions: Seq<Seq<char>> },
    TypeNotFound { name: Seq<char>, suggestions: Seq<Seq<char>> },
    UseRelayTypeTag,
    UseRelayFieldTag,
    RelayTypeTagUsedForField,
    RelayFieldTagUsedForType,
}

impl DeepView for ErrorMessagesWithData {
    type V = ErrorMessagesWithDataView;

    open spec fn deep_view(&self) -> ErrorMessagesWithDataView {
        match self {
            ErrorMessagesWithData::FragmentNotFound { fragment_name, suggestions } =>
                ErrorMessagesWithDataView::FragmentNotFound {
                    fragment_name: fragment_name@,
                    suggestions: suggestions.deep_view(),
                },
            ErrorMessagesWithData::TypeNotFound { name, suggestions } =>
                ErrorMessagesWithDataView::TypeNotFound {
                    name: name@,
                    suggestions: suggestions.deep_view(),
                },
            ErrorMessagesWithData::UseRelayTypeTag => ErrorMessagesWithDataView::UseRelayTypeTag,
            ErrorMessagesWithData::UseRelayFieldTag => ErrorMessagesWithDataView::UseRelayFieldTag,
            ErrorMessagesWithData::RelayTypeTagUsedForField =>
                ErrorMessagesWithDataView::RelayTypeTagUsedForField,
            ErrorMessagesWithData::RelayFieldTagUsedForType =>
                ErrorMessagesWithDataView::RelayFieldTagUsedForType,
        }
    }
}

impl ErrorMessagesWithDataView {
    pub open spec fn message(self) -> Seq<char> {
        match self {
            ErrorMessagesWithDataView::FragmentNotFound { fragment_name, suggestions } =>
                "Fragment `"@ + fragment_name + "` not found."@ + spec_did_you_mean(suggestions),
            ErrorMessagesWithDataView::TypeNotFound { name, suggestions } => "The type `"@
                + name + "` is not an existing GraphQL type."@ + spec_did_you_mean(
                suggestions,
            ),
            ErrorMessagesWithDataView::UseRelayTypeTag =>
                "Unexpected `@RelayResolver` for a type definition. Expected `@relayType`. The legacy `@RelayResolver` tag can be enabled with the `allow_legacy_relay_resolver_tag` feature flag."@,
            ErrorMessagesWithDataView::UseRelayFieldTag =>
                "Unexpected `@RelayResolver` for a field definition. Expected `@relayField`. The legacy `@RelayResolver` tag can be enabled with the `allow_legacy_relay_resolver_tag` feature flag."@,
            ErrorMessagesWithDataView::RelayTypeTagUsedForField =>
                "Unexpected `@relayType` for a field definition. Expected `@relayField`."@,
            ErrorMessagesWithDataView::RelayFieldTagUsedForType =>
                "Unexpected `@relayField` for a type definition. Expected `@relayType`."@,
        }
    }

    /// The names that a tool may offer in place of what was written: the
    /// suggestions, or the tag to use.
    pub open spec fn data(self) -> Seq<Seq<char>> {
        match self {
            ErrorMessagesWithDataView::FragmentNotFound { suggestions, .. } => suggestions,
            ErrorMessagesWithDataView::TypeNotFound { suggestions, .. } => suggestions,
            ErrorMessagesWithDataView::UseRelayTypeTag => seq![
                AllowedFieldName::RelayTypeField.spec_name(),
            ],
            ErrorMessagesWithDataView::UseRelayFieldTag => seq![
                AllowedFieldName::RelayFieldField.spec_name(),
            ],
            ErrorMessagesWithDataView::RelayTypeTagUsedForField => seq![
                AllowedFieldName::RelayFieldField.spec_name(),
            ],
            ErrorMessagesWithDataView::RelayFieldTagUsedForType => seq![
                AllowedFieldName::RelayTypeField.spec_name(),
            ],
        }
    }
}

/// Copies of the strings of `texts`, in order.
pub fn duplicate_strings(texts: &Vec<String>) -> (copies: Vec<String>)
    ensures
        copies.deep_view() == texts.deep_view(),
{
    let mut copies: Vec<String> = Vec::new();
    let mut i: usize = 0;
    while i < texts.len()
        invariant
            i <= texts.len(),
            copies.len() == i,
            forall|j: int| 0 <= j < i ==> copies[j]@ == texts[j]@,
        decreases texts.len() - i,
    {
        copies.push(texts[i].clone());
        i += 1;
    }
    proof {
        assert(copies.deep_view() =~= texts.deep_view());
    }
    copies
}

fn one_name(name: AllowedFieldName) -> (names: Vec<String>)
    ensures
        names.deep_view() == seq![name.spec_name()],
{
    let mut names: Vec<String> = Vec::new();
    names.push(String::from_str(name.name()));
    proof {
        assert(names.deep_view() =~= seq![name.spec_name()]);
    }
    names
}

impl ErrorMessagesWithData {
    /// The message as the reader sees it.
    pub fn message(&self) -> (text: String)
        ensures
            text@ == self.deep_view().message(),
    {
        match self {
            ErrorMessagesWithData::FragmentNotFound { fragment_name, suggestions } => {
                let mut text = concat("Fragment `", fragment_name.as_str(), "` not found.");
                let question = did_you_mean(suggestions);
                text.append(question.as_str());
                text
            },
            ErrorMessagesWithData::TypeNotFound { name, suggestions } => {
                let mut text = concat(
                    "The type `",
                    name.as_str(),
                    "` is not an existing GraphQL type.",
                );
                let question = did_you_mean(suggestions);
                text.append(question.as_str());
                text
            },
            ErrorMessagesWithData::UseRelayTypeTag => String::from_str(
                "Unexpected `@RelayResolver` for a type definition. Expected `@relayType`. The legacy `@RelayResolver` tag can be enabled with the `allow_legacy_relay_resolver_tag` feature flag.",
            ),
            ErrorMessagesWithData::UseRelayFieldTag => String::from_str(
                "Unexpected `@RelayResolver` for a field definition. Expected `@relayField`. The legacy `@RelayResolver` tag can be enabled with the `allow_legacy_relay_resolver_tag` feature flag.",
            ),
            ErrorMessagesWithData::RelayTypeTagUsedForField => String::from_str(
                "Unexpected `@relayType` for a field definition. Expected `@relayField`.",
            ),
            ErrorMessagesWithData::RelayFieldTagUsedForType => String::from_str(
                "Unexpected `@relayField` for a type definition. Expected `@relayType`.",
            ),
        }
    }

    /// The names that a tool may offer in place of what was written.
    pub fn get_data(&self) -> (data: Vec<String>)
        ensures
            data.deep_view() == self.deep_view().data(),
    {
        match self {
            ErrorMessagesWithData::FragmentNotFound { suggestions, .. } => duplicate_strings(
                suggestions,
            ),
            ErrorMessagesWithData::TypeNotFound { suggestions, .. } => duplicate_strings(
                suggestions,
            ),
            ErrorMessagesWithData::UseRelayTypeTag => one_name(AllowedFieldName::RelayTypeField),
            ErrorMessagesWithData::UseRelayFieldTag => one_name(AllowedFieldName::RelayFieldField),
            ErrorMessagesWithData::RelayTypeTagUsedForField => one_name(
                AllowedFieldName::RelayFieldField,
            ),
            ErrorMessagesWithData::RelayFieldTagUsedForType => one_name(
                AllowedFieldName::RelayTypeField,
            ),
        }
    }
}

/// The name of a kind of token, as messages put it.
pub open spec fn spec_token_name(kind: TokenKind) -> Seq<char> {
    match kind {
        TokenKind::EndOfFile => "end of input"@,
        TokenKind::Name => "a name"@,
        TokenKind::IntegerLiteral => "an integer"@,
        TokenKind::FloatLiteral => "a float"@,
        TokenKind::StringLiteral => "a string"@,
        TokenKind::Exclamation => "`!`"@,
        TokenKind::Dollar => "`$`"@,
        TokenKind::Ampersand => "`&`"@,
        TokenKind::OpenParen => "`(`"@,
        TokenKind::CloseParen => "`)`"@,
        TokenKind::Colon => "`:`"@,
        TokenKind::Equals => "`=`"@,
        TokenKind::At => "`@`"@,
        TokenKind::OpenBracket => "`[`"@,
        TokenKind::CloseBracket => "`]`"@,
        TokenKind::OpenBrace => "`{`"@,
        TokenKind::CloseBrace => "`}`"@,
        TokenKind::Pipe => "`|`"@,
        TokenKind::UnterminatedString => "Unterminated string literal"@,
        TokenKind::InvalidNumber => "Invalid number literal"@,
        TokenKind::UnknownCharacter => "Unexpected character"@,
    }
}

pub fn token_name(kind: TokenKind) -> (name: &'static str)
    ensures
        name@ == spec_token_name(kind),
{
    match kind {
        TokenKind::EndOfFile => "end of input",
        TokenKind::Name => "a name",
        TokenKind::IntegerLiteral => "an integer",
        TokenKind::FloatLiteral => "a float",
        TokenKind::StringLiteral => "a string",
        TokenKind::Exclamation => "`!`",
        TokenKind::Dollar => "`$`",
        TokenKind::Ampersand => "`&`",
        TokenKind::OpenParen => "`(`",
        TokenKind::CloseParen => "`)`",
        TokenKind::Colon => "`:`",
        TokenKind::Equals => "`=`",
        TokenKind::At => "`@`",
        TokenKind::OpenBracket => "`[`",
        TokenKind::CloseBracket => "`]`",
        TokenKind::OpenBrace => "`{`",
        TokenKind::CloseBrace => "`}`",
        TokenKind::Pipe => "`|`",
        TokenKind::UnterminatedString => "Unterminated string literal",
        TokenKind::InvalidNumber => "Invalid number literal",
        TokenKind::UnknownCharacter => "Unexpected character",
    }
}

/// The message of a syntax error.
pub open spec fn spec_syntax_message(kind: SyntaxErrorKind) -> Seq<char> {
    match kind {
        SyntaxErrorKind::ExpectedName => "Expected a non-variable identifier (e.g. 'x' or 'Foo')"@,
        SyntaxErrorKind::ExpectedType => "Expected a type annotation (e.g. '[Int!]')"@,
        SyntaxErrorKind::ExpectedConstantValue =>
            "Expected a constant value (e.g. 42, \"hello\", or an enum value)"@,
        SyntaxErrorKind::Expected(kind) => "Expected "@ + spec_token_name(kind),
        SyntaxErrorKind::Malformed(kind) => spec_token_name(kind),
    }
}

pub fn syntax_message(kind: SyntaxErrorKind) -> (text: String)
    ensures
        text@ == spec_syntax_message(kind),
{
    match kind {
        SyntaxErrorKind::ExpectedName => String::from_str(
            "Expected a non-variable identifier (e.g. 'x' or 'Foo')",
        ),
        SyntaxErrorKind::ExpectedType => String::from_str(
            "Expected a type annotation (e.g. '[Int!]')",
        ),
        SyntaxErrorKind::ExpectedConstantValue => String::from_str(
            "Expected a constant value (e.g. 42, \"hello\", or an enum value)",
        ),
        SyntaxErrorKind::Expected(kind) => String::from_str("Expected ").concat(token_name(kind)),
        SyntaxErrorKind::Malformed(kind) => String::from_str(token_name(kind)),
    }
}

/// The message of a diagnostic: a syntax error in a value, a rule of
/// docblocks that was broken, or one of the latter with data for tools.
#[derive(Clone, Debug, PartialEq, Eq)]
pub enum DiagnosticMessage {
    Syntax(SyntaxErrorKind),
    Ir(IrParsingErrorMessages),
    WithData(ErrorMessagesWithData),
}

pub enum DiagnosticMessageView {
    Syntax(SyntaxErrorKind),
    Ir(IrParsingErrorMessagesView),
    WithData(ErrorMessagesWithDataView),
}

impl DeepView for DiagnosticMessage {
    type V = DiagnosticMessageView;

    open spec fn deep_view(&self) -> DiagnosticMessageView {
        match self {
            DiagnosticMessage::Syntax(kind) => DiagnosticMessageView::Syntax(*kind),
            DiagnosticMessage::Ir(message) => DiagnosticMessageView::Ir(message.deep_view()),
            DiagnosticMessage::WithData(message) => DiagnosticMessageView::WithData(
                message.deep_view(),
            ),
        }
    }
}

impl DiagnosticMessageView {
    pub open spec fn message(self) -> Seq<char> {
        match self {
            DiagnosticMessageView::Syntax(kind) => spec_syntax_message(kind),
            DiagnosticMessageView::Ir(message) => message.message(),
            DiagnosticMessageView::WithData(message) => message.message(),
        }
    }

    pub open spec fn data(self) -> Seq<Seq<char>> {
        match self {
            DiagnosticMessageView::WithData(message) => message.data(),
            _ => Seq::empty(),
        }
    }
}

/// A note added to a diagnostic: a message and the place it speaks of.
#[derive(Clone, Debug, PartialEq, Eq)]
pub struct DiagnosticRelatedInformation {
    pub message: String,
    pub location: Location,
}

pub struct DiagnosticRelatedInformationView {
    pub message: Seq<char>,
    pub location: Location,
}

impl DeepView for DiagnosticRelatedInformation {
    type V = DiagnosticRelatedInformationView;

    open spec fn deep_view(&self) -> DiagnosticRelatedInformationView {
        DiagnosticRelatedInformationView { message: self.message@, location: self.location }
    }
}

/// A problem found in a docblock: what, where, and the places related to
/// it.
#[derive(Clone, Debug, PartialEq, Eq)]
pub struct Diagnostic {
    pub message: DiagnosticMessage,
    pub location: Location,
    pub related_information: Vec<DiagnosticRelatedInformation>,
}

pub struct DiagnosticView {
    pub message: DiagnosticMessageView,
    pub location: Location,
    pub related_information: Seq<DiagnosticRelatedInformationView>,
}

impl DeepView for Diagnostic {
    type V = DiagnosticView;

    open spec fn deep_view(&self) -> DiagnosticView {
        DiagnosticView {
            message: self.message.deep_view(),
            location: self.location,
            related_information: self.related_information.deep_view(),
        }
    }
}

impl DiagnosticView {
    /// The diagnostic for `message` at `location`, without notes.
    pub open spec fn error(message: DiagnosticMessageView, location: Location) -> DiagnosticView {
        DiagnosticView { message, location, related_information: Seq::empty() }
    }

    /// The diagnostic for a broken rule of docblocks.
    pub open spec fn ir(message: IrParsingErrorMessagesView, location: Location) -> DiagnosticView {
        DiagnosticView::error(DiagnosticMessageView::Ir(message), location)
    }

    /// The diagnostic for a broken rule, with data for tools.
    pub open spec fn with_data(
        message: ErrorMessagesWithDataView,
        location: Location,
    ) -> DiagnosticView {
        DiagnosticView::error(DiagnosticMessageView::WithData(message), location)
    }

    /// The diagnostic for a syntax error in the source `source_location`.
    pub open spec fn syntax(error: SyntaxError, source_location: SourceLocationKey) -> DiagnosticView {
        DiagnosticView::error(
            DiagnosticMessageView::Syntax(error.kind),
            Location { source_location, span: error.span },
        )
    }

    /// The diagnostic with one more note.
    pub open spec fn annotate(self, message: Seq<char>, location: Location) -> DiagnosticView {
        DiagnosticView {
            related_information: self.related_information.push(
                DiagnosticRelatedInformationView { message, location },
            ),
            ..self
        }
    }
}

impl Diagnostic {
    /// A diagnostic for `message` at `location`, without notes.
    pub fn error(message: DiagnosticMessage, location: Location) -> (diagnostic: Diagnostic)
        ensures
            diagnostic.message == message,
            diagnostic.location == location,
            diagnostic.related_information@.len() == 0,
            diagnostic.deep_view() == DiagnosticView::error(message.deep_view(), location),
    {
        let diagnostic = Diagnostic { message, location, related_information: Vec::new() };
        proof {
            assert(diagnostic.related_information.deep_view() =~= Seq::empty());
        }
        diagnostic
    }

    /// A diagnostic for a broken rule of docblocks.
    pub fn ir(message: IrParsingErrorMessages, location: Location) -> (diagnostic: Diagnostic)
        ensures
            diagnostic.deep_view() == DiagnosticView::ir(message.deep_view(), location),
    {
        Diagnostic::error(DiagnosticMessage::Ir(message), location)
    }

    /// A diagnostic for a broken rule, with data for tools.
    pub fn error_with_data(message: ErrorMessagesWithData, location: Location) -> (diagnostic:
        Diagnostic)
        ensures
            diagnostic.deep_view() == DiagnosticView::with_data(message.deep_view(), location),
    {
        Diagnostic::error(DiagnosticMessage::WithData(message), location)
    }

    /// A diagnostic for a syntax error in the source `source_location`.
    pub fn syntax(error: SyntaxError, source_location: SourceLocationKey) -> (diagnostic:
        Diagnostic)
        ensures
            diagnostic.deep_view() == DiagnosticView::syntax(error, source_location),
    {
        Diagnostic::error(
            DiagnosticMessage::Syntax(error.kind),
            Location { source_location, span: error.span },
        )
    }

    /// The diagnostic with one more note.
    pub fn annotate(self, message: &str, location: Location) -> (diagnostic: Diagnostic)
        ensures
            diagnostic.deep_view() == self.deep_view().annotate(message@, location),
    {
        let mut diagnostic = self;
        let ghost before = diagnostic.related_information;
        let note = DiagnosticRelatedInformation { message: String::from_str(message), location };
        diagnostic.related_information.push(note);
        proof {
            assert(diagnostic.related_information.deep_view() =~= before.deep_view().push(
                note.deep_view(),
            ));
        }
        diagnostic
    }

    /// The message as the reader sees it.
    pub fn message_text(&self) -> (text: String)
        ensures
            text@ == self.deep_view().message.message(),
    {
        match &self.message {
            DiagnosticMessage::Syntax(kind) => syntax_message(*kind),
            DiagnosticMessage::Ir(message) => message.message(),
            DiagnosticMessage::WithData(message) => message.message(),
        }
    }

    /// The names that a tool may offer in place of what was written; none
    /// for a message without data.
    pub fn get_data(&self) -> (data: Vec<String>)
        ensures
            data.deep_view() == self.deep_view().message.data(),
    {
        match &self.message {
            DiagnosticMessage::WithData(message) => message.get_data(),
            _ => {
                let data: Vec<String> = Vec::new();
                proof {
                    assert(data.deep_view() =~= Seq::empty());
                }
                data
            },
        }
    }
}

/// What the functions of this library return: a value, or the problems
/// that kept it from being made.
pub type DiagnosticsResult<T> = Result<T, Vec<Diagnostic>>;

/// The list that holds `diagnostic` alone.
pub fn one_diagnostic(diagnostic: Diagnostic) -> (diagnostics: Vec<Diagnostic>)
    ensures
        diagnostics.deep_view() == seq![diagnostic.deep_view()],
        diagnostics@ == seq![diagnostic],
{
    let mut diagnostics: Vec<Diagnostic> = Vec::new();
    diagnostics.push(diagnostic);
    proof {
        assert(diagnostics.deep_view() =~= seq![diagnostic.deep_view()]);
        assert(diagnostics@ =~= seq![diagnostic]);
    }
    diagnostics
}

} // verus!
