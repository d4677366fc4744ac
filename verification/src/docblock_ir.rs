//! From the fields of a docblock to what the docblock declares.
//!
//! The three tags `@RelayResolver`, `@relayType` and `@relayField` are
//! looked for; the one that is present says, by its value, whether a type
//! or a field is declared; a builder reads the value and claims the
//! fields it knows; fields left over are an error; and last the tag is
//! held against what was built.

use vstd::prelude::*;
use vstd::string::StringExecFns;
use crate::errors::{
    one_diagnostic, Diagnostic, DiagnosticView, DiagnosticsResult, ErrorMessagesWithData,
    ErrorMessagesWithDataView, IrParsingErrorMessages, IrParsingErrorMessagesView,
};
use crate::executable::{
    Argument as FragmentArgument, Directive, ExecutableDefinition, FragmentDefinition, Value,
};
use crate::grammar::{
    spec_end_of_input, spec_field_definition, spec_identifier, spec_parse_identifier,
    spec_parse_identifier_and_implements_interfaces, spec_parse_type,
};
use crate::ir::{
    key_resolver_id_field, spec_key_resolver_id_field, Argument, ArgumentView, DocblockIr,
    ProjectName, ResolverFieldDocblockIr, ResolverTypeDocblockIr, StrongObjectIr,
    TerseRelayResolverIr, WeakObjectIr,
};
use crate::leftover::{assert_all_fields_removed, leftover_fields_diagnostic};
use crate::location::{LocatedString, Location, SourceLocationKey, Span};
use crate::options::ParseOptions;
use crate::parser::{
    parse_end_of_input, parse_field_definition_at, parse_identifier,
    parse_identifier_and_implements_interfaces, parse_identifier_at, parse_type,
};
use crate::source::{
    fits_in_span, offset_at, spec_position, text_contains, texts_equal, Source,
};
use crate::syntax::{
    ConstantArgument, ConstantDirective, ConstantDirectiveView, ConstantValue, FieldDefinition,
    StringNode, StringNodeView, FieldDefinitionView, Identifier, IdentifierView, InputValueDefinitionList,
    InputValueDefinitionListView, InputValueDefinitionView, SyntaxError,
};
use crate::untyped_representation::{
    AllowedFieldName, FieldMap, IrField, PopulatedIrField, ResolverSourceHash,
    UnpopulatedIrField, UntypedDocblockRepresentation,
};

verus! {

/// Which of the three tags the author used.
#[derive(Clone, Copy, Debug, PartialEq, Eq, Structural)]
pub enum UsedTag {
    RelayResolver,
    RelayType,
    RelayField,
}

impl UsedTag {
    /// The field name of the tag.
    pub open spec fn spec_field_name(self) -> AllowedFieldName {
        match self {
            UsedTag::RelayResolver => AllowedFieldName::RelayResolverField,
            UsedTag::RelayType => AllowedFieldName::RelayTypeField,
            UsedTag::RelayField => AllowedFieldName::RelayFieldField,
        }
    }

    #[verifier::when_used_as_spec(spec_field_name)]
    pub fn field_name(self) -> (name: AllowedFieldName)
        ensures
            name == self.spec_field_name(),
    {
        match self {
            UsedTag::RelayResolver => AllowedFieldName::RelayResolverField,
            UsedTag::RelayType => AllowedFieldName::RelayTypeField,
            UsedTag::RelayField => AllowedFieldName::RelayFieldField,
        }
    }
}

/// A result stands for what was expected of it: the same value, or the
/// same diagnostics.
pub open spec fn resolved_as<T: DeepView>(
    result: Result<T, Vec<Diagnostic>>,
    expected: Result<T::V, Seq<DiagnosticView>>,
) -> bool {
    match (result, expected) {
        (Ok(value), Ok(view)) => value.deep_view() == view,
        (Err(diagnostics), Err(views)) => diagnostics.deep_view() == views,
        _ => false,
    }
}

/// The diagnostics of a syntax error in a value of the source
/// `source_location`.
pub open spec fn syntax_failure(error: SyntaxError, source_location: SourceLocationKey) -> Seq<
    DiagnosticView,
> {
    seq![DiagnosticView::syntax(error, source_location)]
}

/// A field that may have no value: the field itself, or the error for the
/// value it has.
pub open spec fn spec_try_into_unpopulated_field(
    field_name: AllowedFieldName,
    field_value: IrField,
) -> Result<UnpopulatedIrField, DiagnosticView> {
    match field_value {
        IrField::UnpopulatedIrField(field) => Ok(field),
        IrField::PopulatedIrField(field) => Err(
            DiagnosticView::ir(
                IrParsingErrorMessagesView::FieldWithUnexpectedData { field_name },
                field.key_location,
            ),
        ),
    }
}

/// A field that must have a value: the field itself, or the error for
/// the value it lacks.
pub open spec fn spec_try_into_populated_field(
    field_name: AllowedFieldName,
    field_value: IrField,
) -> Result<PopulatedIrField, DiagnosticView> {
    match field_value {
        IrField::PopulatedIrField(field) => Ok(field),
        IrField::UnpopulatedIrField(field) => Err(
            DiagnosticView::ir(
                IrParsingErrorMessagesView::FieldWithMissingData { field_name },
                field.key_location,
            ),
        ),
    }
}

pub fn try_into_unpopulated_field(field_name: AllowedFieldName, field_value: IrField) -> (result:
    Result<UnpopulatedIrField, Diagnostic>)
    ensures
        match result {
            Ok(field) => spec_try_into_unpopulated_field(field_name, field_value) == Ok::<
                _,
                DiagnosticView,
            >(field),
            Err(diagnostic) => spec_try_into_unpopulated_field(field_name, field_value) == Err::<
                UnpopulatedIrField,
                _,
            >(diagnostic.deep_view()),
        },
{
    let key_location = field_value.key_location();
    match field_value.try_into_unpopulated() {
        Ok(field) => Ok(field),
        Err(_) => Err(
            Diagnostic::ir(
                IrParsingErrorMessages::FieldWithUnexpectedData { field_name },
                key_location,
            ),
        ),
    }
}

pub fn try_into_populated_field(field_name: AllowedFieldName, field_value: IrField) -> (result:
    Result<PopulatedIrField, Diagnostic>)
    ensures
        match result {
            Ok(field) => spec_try_into_populated_field(field_name, field_value) == Ok::<
                _,
                DiagnosticView,
            >(field),
            Err(diagnostic) => spec_try_into_populated_field(field_name, field_value) == Err::<
                PopulatedIrField,
                _,
            >(diagnostic.deep_view()),
        },
{
    let key_location = field_value.key_location();
    match field_value.try_into_populated() {
        Ok(field) => Ok(field),
        Err(_) => Err(
            Diagnostic::ir(
                IrParsingErrorMessages::FieldWithMissingData { field_name },
                key_location,
            ),
        ),
    }
}

/// The field under `field_name`, which may have no value: nothing if the
/// map holds none, the field if it has no value, else the error.
pub open spec fn spec_optional_unpopulated(
    fields: Map<AllowedFieldName, IrField>,
    field_name: AllowedFieldName,
) -> Result<Option<UnpopulatedIrField>, DiagnosticView> {
    if fields.contains_key(field_name) {
        match spec_try_into_unpopulated_field(field_name, fields[field_name]) {
            Ok(field) => Ok(Some(field)),
            Err(diagnostic) => Err(diagnostic),
        }
    } else {
        Ok(None)
    }
}

/// The field under `field_name`, which must have a value: nothing if the
/// map holds none, the field if it has a value, else the error.
pub open spec fn spec_optional_populated(
    fields: Map<AllowedFieldName, IrField>,
    field_name: AllowedFieldName,
) -> Result<Option<PopulatedIrField>, DiagnosticView> {
    if fields.contains_key(field_name) {
        match spec_try_into_populated_field(field_name, fields[field_name]) {
            Ok(field) => Ok(Some(field)),
            Err(diagnostic) => Err(diagnostic),
        }
    } else {
        Ok(None)
    }
}

/// Takes the field under `field_name` out of the map. The field may have
/// no value.
pub fn get_optional_unpopulated_field_named(
    fields: &mut FieldMap,
    field_name: AllowedFieldName,
) -> (result: Result<Option<UnpopulatedIrField>, Diagnostic>)
    ensures
        final(fields)@ == old(fields)@.remove(field_name),
        match result {
            Ok(field) => spec_optional_unpopulated(old(fields)@, field_name) == Ok::<
                _,
                DiagnosticView,
            >(field),
            Err(diagnostic) => spec_optional_unpopulated(old(fields)@, field_name) == Err::<
                Option<UnpopulatedIrField>,
                _,
            >(diagnostic.deep_view()),
        },
{
    match fields.remove(field_name) {
        None => Ok(None),
        Some(field_value) => match try_into_unpopulated_field(field_name, field_value) {
            Ok(field) => Ok(Some(field)),
            Err(diagnostic) => Err(diagnostic),
        },
    }
}

/// Takes the field under `field_name` out of the map. The field must have
/// a value.
pub fn get_optional_populated_field_named(
    fields: &mut FieldMap,
    field_name: AllowedFieldName,
) -> (result: Result<Option<PopulatedIrField>, Diagnostic>)
    ensures
        final(fields)@ == old(fields)@.remove(field_name),
        match result {
            Ok(field) => spec_optional_populated(old(fields)@, field_name) == Ok::<
                _,
                DiagnosticView,
            >(field),
            Err(diagnostic) => spec_optional_populated(old(fields)@, field_name) == Err::<
                Option<PopulatedIrField>,
                _,
            >(diagnostic.deep_view()),
        },
{
    match fields.remove(field_name) {
        None => Ok(None),
        Some(field_value) => match try_into_populated_field(field_name, field_value) {
            Ok(field) => Ok(Some(field)),
            Err(diagnostic) => Err(diagnostic),
        },
    }
}

/// How many of the three resolver tags `fields` holds.
pub open spec fn resolver_tag_count(fields: Map<AllowedFieldName, IrField>) -> int {
    (if fields.contains_key(AllowedFieldName::RelayResolverField) {
        1int
    } else {
        0int
    }) + (if fields.contains_key(AllowedFieldName::RelayTypeField) {
        1int
    } else {
        0int
    }) + (if fields.contains_key(AllowedFieldName::RelayFieldField) {
        1int
    } else {
        0int
    })
}

/// The first of the resolver tags that `fields` holds, in the order
/// `@RelayResolver`, `@relayType`, `@relayField`.
pub open spec fn first_resolver_tag(fields: Map<AllowedFieldName, IrField>) -> UsedTag {
    if fields.contains_key(AllowedFieldName::RelayResolverField) {
        UsedTag::RelayResolver
    } else if fields.contains_key(AllowedFieldName::RelayTypeField) {
        UsedTag::RelayType
    } else {
        UsedTag::RelayField
    }
}

/// The fields without the three resolver tags.
pub open spec fn without_resolver_tags(fields: Map<AllowedFieldName, IrField>) -> Map<
    AllowedFieldName,
    IrField,
> {
    fields.remove(AllowedFieldName::RelayResolverField).remove(
        AllowedFieldName::RelayTypeField,
    ).remove(AllowedFieldName::RelayFieldField)
}

/// Which tag declares the resolver: none if no resolver tag is present,
/// the tag and its field if one is, and an error at the first of them if
/// there are more.
pub open spec fn spec_resolve_tag(fields: Map<AllowedFieldName, IrField>) -> Result<
    Option<(UsedTag, IrField)>,
    DiagnosticView,
> {
    let first = first_resolver_tag(fields);
    if resolver_tag_count(fields) == 0 {
        Ok(None)
    } else if resolver_tag_count(fields) == 1 {
        Ok(Some((first, fields[first.spec_field_name()])))
    } else {
        Err(
            DiagnosticView::ir(
                IrParsingErrorMessagesView::MultipleResolverTags,
                fields[first.spec_field_name()].spec_key_location(),
            ),
        )
    }
}

/// Takes the three resolver tags out of the map and says which one
/// declares the resolver.
pub fn resolve_tag(fields: &mut FieldMap) -> (result: Result<Option<(UsedTag, IrField)>, Diagnostic>)
    ensures
        final(fields)@ == without_resolver_tags(old(fields)@),
        match result {
            Ok(found) => spec_resolve_tag(old(fields)@) == Ok::<_, DiagnosticView>(found),
            Err(diagnostic) => spec_resolve_tag(old(fields)@) == Err::<
                Option<(UsedTag, IrField)>,
                _,
            >(diagnostic.deep_view()),
        },
{
    let relay_resolver_field = fields.remove(AllowedFieldName::RelayResolverField);
    let relay_type_field = fields.remove(AllowedFieldName::RelayTypeField);
    let relay_field_field = fields.remove(AllowedFieldName::RelayFieldField);
    match (relay_resolver_field, relay_type_field, relay_field_field) {
        (None, None, None) => Ok(None),
        (Some(field), None, None) => Ok(Some((UsedTag::RelayResolver, field))),
        (None, Some(field), None) => Ok(Some((UsedTag::RelayType, field))),
        (None, None, Some(field)) => Ok(Some((UsedTag::RelayField, field))),
        (Some(first), _, _) => Err(
            Diagnostic::ir(IrParsingErrorMessages::MultipleResolverTags, first.key_location()),
        ),
        (None, Some(first), _) => Err(
            Diagnostic::ir(IrParsingErrorMessages::MultipleResolverTags, first.key_location()),
        ),
    }
}

/// Whether a tag fits what was built under it: the error, or nothing.
/// The legacy tag is accepted where it is still allowed for the name and
/// else turned away with the tag to use; each new tag is accepted for its
/// own kind only.
pub open spec fn spec_tag_validity(used_tag: UsedTag, is_type: bool, legacy_tag_allowed: bool) -> Option<
    ErrorMessagesWithDataView,
> {
    match (used_tag, is_type) {
        (UsedTag::RelayResolver, true) => if legacy_tag_allowed {
            None
        } else {
            Some(ErrorMessagesWithDataView::UseRelayTypeTag)
        },
        (UsedTag::RelayResolver, false) => if legacy_tag_allowed {
            None
        } else {
            Some(ErrorMessagesWithDataView::UseRelayFieldTag)
        },
        (UsedTag::RelayType, true) => None,
        (UsedTag::RelayType, false) => Some(ErrorMessagesWithDataView::RelayTypeTagUsedForField),
        (UsedTag::RelayField, true) => Some(ErrorMessagesWithDataView::RelayFieldTagUsedForType),
        (UsedTag::RelayField, false) => None,
    }
}

/// The decision of `spec_tag_validity` as a message.
pub fn tag_validity(used_tag: UsedTag, is_type: bool, legacy_tag_allowed: bool) -> (error: Option<
    ErrorMessagesWithData,
>)
    ensures
        match error {
            Some(message) => spec_tag_validity(used_tag, is_type, legacy_tag_allowed) == Some(
                message.deep_view(),
            ),
            None => spec_tag_validity(used_tag, is_type, legacy_tag_allowed) is None,
        },
{
    match (used_tag, is_type) {
        (UsedTag::RelayResolver, true) => if legacy_tag_allowed {
            None
        } else {
            Some(ErrorMessagesWithData::UseRelayTypeTag)
        },
        (UsedTag::RelayResolver, false) => if legacy_tag_allowed {
            None
        } else {
            Some(ErrorMessagesWithData::UseRelayFieldTag)
        },
        (UsedTag::RelayType, true) => None,
        (UsedTag::RelayType, false) => Some(ErrorMessagesWithData::RelayTypeTagUsedForField),
        (UsedTag::RelayField, true) => Some(ErrorMessagesWithData::RelayFieldTagUsedForType),
        (UsedTag::RelayField, false) => None,
    }
}

/// What holding the tag against `parsed_ir` gives: the diagnostics, or
/// nothing where the tag fits.
pub open spec fn spec_check_resolver_tag_validity(
    used_tag: UsedTag,
    parsed_ir: DocblockIr,
    parse_options: ParseOptions,
    tag_location: Location,
) -> Option<Seq<DiagnosticView>> {
    match spec_tag_validity(
        used_tag,
        parsed_ir.spec_is_type(),
        parse_options.allow_legacy_relay_resolver_tag.spec_is_enabled_for(
            parsed_ir.spec_primary_name(),
        ),
    ) {
        Some(message) => Some(seq![DiagnosticView::with_data(message, tag_location)]),
        None => None,
    }
}

/// Holds the tag that the author used against what was built from the
/// docblock.
pub fn check_resolver_tag_validity(
    used_tag: UsedTag,
    parsed_ir: &DocblockIr,
    parse_options: &ParseOptions<'_>,
    tag_location: Location,
) -> (result: DiagnosticsResult<()>)
    ensures
        match result {
            Ok(_) => spec_check_resolver_tag_validity(
                used_tag,
                *parsed_ir,
                *parse_options,
                tag_location,
            ) is None,
            Err(diagnostics) => spec_check_resolver_tag_validity(
                used_tag,
                *parsed_ir,
                *parse_options,
                tag_location,
            ) == Some(diagnostics.deep_view()),
        },
{
    let is_type = parsed_ir.is_type();
    let legacy_tag_allowed = parse_options.allow_legacy_relay_resolver_tag.is_enabled_for(
        parsed_ir.primary_name().as_str(),
    );
    match tag_validity(used_tag, is_type, legacy_tag_allowed) {
        Some(message) => Err(one_diagnostic(Diagnostic::error_with_data(message, tag_location))),
        None => Ok(()),
    }
}

impl PopulatedIrField {
    /// The value ends at a byte offset that a span can hold.
    pub open spec fn spec_fits(&self) -> bool {
        fits_in_span(self.value.item@, self.value.location.span.start)
    }

    /// Whether the value ends at a byte offset that a span can hold.
    pub fn fits(&self) -> (fits: bool)
        ensures
            fits == self.spec_fits(),
    {
        crate::source::text_fits(self.value.item.as_str(), self.value.location.span.start)
    }
}

/// The name that a value begins with, or the diagnostics of the syntax
/// error.
pub open spec fn spec_extract_identifier(value: LocatedString) -> Result<
    IdentifierView,
    Seq<DiagnosticView>,
> {
    match spec_parse_identifier(value.item@, value.location.span.start) {
        Ok(name) => Ok(name),
        Err(error) => Err(syntax_failure(error, value.location.source_location)),
    }
}

/// Reads the name that the value of the field begins with.
pub fn extract_identifier(relay_resolver_field: &PopulatedIrField) -> (result: DiagnosticsResult<
    Identifier,
>)
    requires
        relay_resolver_field.spec_fits(),
    ensures
        resolved_as(result, spec_extract_identifier(relay_resolver_field.value)),
{
    let type_str = &relay_resolver_field.value;
    match parse_identifier(type_str.item.as_str(), type_str.location.span().start) {
        Ok(name) => Ok(name),
        Err(error) => Err(
            one_diagnostic(Diagnostic::syntax(error, type_str.location.source_location())),
        ),
    }
}

/// The name that a value consists of, or the diagnostics: of the syntax
/// error, or of the characters that follow the name.
pub open spec fn spec_assert_only_identifier(value: LocatedString) -> Result<
    IdentifierView,
    Seq<DiagnosticView>,
> {
    match spec_extract_identifier(value) {
        Err(diagnostics) => Err(diagnostics),
        Ok(name) => if name.value == value.item@ {
            Ok(name)
        } else {
            Err(
                seq![
                    DiagnosticView::ir(
                        IrParsingErrorMessagesView::RemainingCharsWhenParsingIdentifier {
                            user_provided: value.item@,
                            parsed: name.value,
                        },
                        value.location,
                    ),
                ],
            )
        },
    }
}

/// Reads the name that the value of the field consists of: nothing may
/// stand before or after it.
pub fn assert_only_identifier(relay_resolver_field: &PopulatedIrField) -> (result:
    DiagnosticsResult<Identifier>)
    requires
        relay_resolver_field.spec_fits(),
    ensures
        resolved_as(result, spec_assert_only_identifier(relay_resolver_field.value)),
{
    let identifier = match extract_identifier(relay_resolver_field) {
        Err(diagnostics) => {
            return Err(diagnostics);
        },
        Ok(identifier) => identifier,
    };
    if texts_equal(identifier.value.as_str(), relay_resolver_field.value.item.as_str()) {
        Ok(identifier)
    } else {
        Err(
            one_diagnostic(
                Diagnostic::ir(
                    IrParsingErrorMessages::RemainingCharsWhenParsingIdentifier {
                        user_provided: relay_resolver_field.value.item.clone(),
                        parsed: identifier.value,
                    },
                    relay_resolver_field.value.location,
                ),
            ),
        )
    }
}

/// The error for a field type that excludes null, where that is not
/// allowed for the field's name; it points at the type.
pub open spec fn spec_validate_field_type_annotation(
    field: FieldDefinitionView,
    source_location: SourceLocationKey,
    parse_options: ParseOptions,
) -> Option<Seq<DiagnosticView>> {
    if field.type_ is NonNull
        && !parse_options.allow_resolver_non_nullable_return_type.spec_is_enabled_for(
        field.name.value,
    ) {
        Some(
            seq![
                DiagnosticView::ir(
                    IrParsingErrorMessagesView::FieldWithNonNullType,
                    Location { source_location, span: field.type_.span() },
                ),
            ],
        )
    } else {
        None
    }
}

/// Turns away a field whose type excludes null, unless that is allowed
/// for the field's name.
pub fn validate_field_type_annotation(
    field: &FieldDefinition,
    type_str: &LocatedString,
    parse_options: &ParseOptions<'_>,
) -> (result: DiagnosticsResult<()>)
    ensures
        match result {
            Ok(_) => spec_validate_field_type_annotation(
                field.deep_view(),
                type_str.location.source_location,
                *parse_options,
            ) is None,
            Err(diagnostics) => spec_validate_field_type_annotation(
                field.deep_view(),
                type_str.location.source_location,
                *parse_options,
            ) == Some(diagnostics.deep_view()),
        },
{
    if field.type_.is_non_null() {
        if !parse_options.allow_resolver_non_nullable_return_type.is_enabled_for(
            field.name.value.as_str(),
        ) {
            return Err(
                one_diagnostic(
                    Diagnostic::ir(
                        IrParsingErrorMessages::FieldWithNonNullType,
                        Location::new(type_str.location.source_location(), field.type_.span()),
                    ),
                ),
            );
        }
    }
    Ok(())
}

/// The errors for the default values among the first `count` of the
/// arguments `items`: one for each argument that has one, at the value.
pub open spec fn default_value_errors(
    items: Seq<InputValueDefinitionView>,
    source_location: SourceLocationKey,
    count: int,
) -> Seq<DiagnosticView>
    decreases count,
{
    if count <= 0 {
        Seq::empty()
    } else {
        let front = default_value_errors(items, source_location, count - 1);
        match items[count - 1].default_value {
            Some(default_value) => front.push(
                DiagnosticView::ir(
                    IrParsingErrorMessagesView::ArgumentDefaultValuesNoSupported,
                    Location { source_location, span: default_value.value.span() },
                ),
            ),
            None => front,
        }
    }
}

/// The errors for the default values of the arguments of a field, all of
/// them.
pub open spec fn spec_validate_field_arguments(
    arguments: Option<InputValueDefinitionListView>,
    source_location: SourceLocationKey,
) -> Seq<DiagnosticView> {
    match arguments {
        Some(arguments) => default_value_errors(
            arguments.items,
            source_location,
            arguments.items.len() as int,
        ),
        None => Seq::empty(),
    }
}

/// Turns away arguments with default values; every one of them is
/// reported.
pub fn validate_field_arguments(
    arguments: &Option<InputValueDefinitionList>,
    source_location: SourceLocationKey,
) -> (result: DiagnosticsResult<()>)
    ensures
        match result {
            Ok(_) => spec_validate_field_arguments(arguments.deep_view(), source_location).len()
                == 0,
            Err(diagnostics) => diagnostics.deep_view() == spec_validate_field_arguments(
                arguments.deep_view(),
                source_location,
            ) && diagnostics.len() > 0,
        },
{
    let mut errors: Vec<Diagnostic> = Vec::new();
    proof {
        assert(errors.deep_view() =~= Seq::empty());
    }
    match arguments {
        Some(field_arguments) => {
            let ghost items = field_arguments.items.deep_view();
            let mut i: usize = 0;
            while i < field_arguments.items.len()
                invariant
                    i <= field_arguments.items.len(),
                    items == field_arguments.items.deep_view(),
                    errors.deep_view() == default_value_errors(items, source_location, i as int),
                decreases field_arguments.items.len() - i,
            {
                match &field_arguments.items[i].default_value {
                    Some(default_value) => {
                        let ghost before = errors;
                        let diagnostic = Diagnostic::ir(
                            IrParsingErrorMessages::ArgumentDefaultValuesNoSupported,
                            Location::new(source_location, default_value.value.span()),
                        );
                        errors.push(diagnostic);
                        proof {
                            crate::parser::lemma_deep_view_push(before, errors, diagnostic);
                        }
                    },
                    None => {},
                }
                i += 1;
            }
        },
        None => {},
    }
    if errors.len() == 0 {
        Ok(())
    } else {
        Err(errors)
    }
}

} // verus!

verus! {

/// The names of the definitions among the first `count` of `definitions`
/// that have a name, in order.
pub open spec fn definition_names(definitions: Seq<ExecutableDefinition>, count: int) -> Seq<
    Seq<char>,
>
    decreases count,
{
    if count <= 0 {
        Seq::empty()
    } else {
        match definitions[count - 1].spec_name() {
            Some(name) => definition_names(definitions, count - 1).push(name),
            None => definition_names(definitions, count - 1),
        }
    }
}

/// The first place at or after `from` that holds a fragment named `name`.
pub open spec fn find_fragment(
    definitions: Seq<ExecutableDefinition>,
    name: Seq<char>,
    from: int,
) -> Option<int>
    decreases definitions.len() - from,
{
    if from < 0 || from >= definitions.len() {
        None
    } else if definitions[from] is Fragment && definitions[from]->Fragment_0.name.value@ == name {
        Some(from)
    } else {
        find_fragment(definitions, name, from + 1)
    }
}

/// The definitions of the file, none where no file was given.
pub open spec fn definitions_of(definitions_in_file: Option<&Vec<ExecutableDefinition>>) -> Seq<
    ExecutableDefinition,
> {
    match definitions_in_file {
        Some(definitions) => definitions@,
        None => Seq::empty(),
    }
}

/// The first fragment of the file named `fragment_name`; where there is
/// none, the error at `root_fragment` that offers the names of all
/// definitions of the file.
pub open spec fn spec_assert_fragment_definition(
    root_fragment: LocatedString,
    fragment_name: Seq<char>,
    definitions: Seq<ExecutableDefinition>,
) -> Result<FragmentDefinition, DiagnosticView> {
    match find_fragment(definitions, fragment_name, 0) {
        Some(at) => Ok(definitions[at]->Fragment_0),
        None => Err(
            DiagnosticView::with_data(
                ErrorMessagesWithDataView::FragmentNotFound {
                    fragment_name,
                    suggestions: definition_names(definitions, definitions.len() as int),
                },
                root_fragment.location,
            ),
        ),
    }
}

/// Looks the fragment `fragment_name` up among the definitions of the
/// file.
#[verifier::loop_isolation(false)]
pub fn assert_fragment_definition<'a>(
    root_fragment: &LocatedString,
    fragment_name: &str,
    definitions_in_file: Option<&'a Vec<ExecutableDefinition>>,
) -> (result: Result<&'a FragmentDefinition, Diagnostic>)
    ensures
        match result {
            Ok(fragment) => spec_assert_fragment_definition(
                *root_fragment,
                fragment_name@,
                definitions_of(definitions_in_file),
            ) == Ok::<_, DiagnosticView>(*fragment),
            Err(diagnostic) => spec_assert_fragment_definition(
                *root_fragment,
                fragment_name@,
                definitions_of(definitions_in_file),
            ) == Err::<FragmentDefinition, _>(diagnostic.deep_view()),
        },
{
    let mut suggestions: Vec<String> = Vec::new();
    proof {
        assert(suggestions.deep_view() =~= Seq::empty());
    }
    match definitions_in_file {
        Some(definitions) => {
            let mut i: usize = 0;
            while i < definitions.len()
                invariant
                    i <= definitions.len(),
                    find_fragment(definitions@, fragment_name@, 0) == find_fragment(
                        definitions@,
                        fragment_name@,
                        i as int,
                    ),
                decreases definitions.len() - i,
            {
                match &definitions[i] {
                    ExecutableDefinition::Fragment(fragment) => {
                        if texts_equal(fragment.name.value.as_str(), fragment_name) {
                            return Ok(fragment);
                        }
                    },
                    _ => {},
                }
                i += 1;
            }
            let mut j: usize = 0;
            while j < definitions.len()
                invariant
                    j <= definitions.len(),
                    suggestions.deep_view() == definition_names(definitions@, j as int),
                decreases definitions.len() - j,
            {
                match definitions[j].name() {
                    Some(name) => {
                        let ghost before = suggestions;
                        let copy = name.clone();
                        suggestions.push(copy);
                        proof {
                            crate::parser::lemma_deep_view_push(before, suggestions, copy);
                        }
                    },
                    None => {},
                }
                j += 1;
            }
        },
        None => {},
    }
    Err(
        Diagnostic::error_with_data(
            ErrorMessagesWithData::FragmentNotFound {
                fragment_name: String::from_str(fragment_name),
                suggestions,
            },
            root_fragment.location,
        ),
    )
}

/// The names of directives, in order.
pub open spec fn directive_names(directives: Seq<Directive>) -> Seq<Seq<char>> {
    Seq::new(directives.len(), |i: int| directives[i].name.value@)
}

/// The names of the fields of an object value, in order.
pub open spec fn field_names(fields: Seq<ConstantArgument>) -> Seq<Seq<char>> {
    Seq::new(fields.len(), |i: int| fields[i].name.value@)
}

/// The name of the directive that defines the arguments of a fragment.
pub open spec fn spec_argument_definitions_name() -> Seq<char> {
    "argumentDefinitions"@
}

/// The arguments that the fragment defines: those of its first directive
/// `@argumentDefinitions`, if it has one with arguments.
pub open spec fn argument_definitions(fragment: FragmentDefinition) -> Option<Seq<FragmentArgument>> {
    match spec_position(directive_names(fragment.directives@), spec_argument_definitions_name(), 0) {
        Some(at) => match fragment.directives[at].arguments {
            Some(arguments) => Some(arguments.items@),
            None => None,
        },
        None => None,
    }
}

/// The definition of a fragment argument can be read: its value is a
/// constant object that either names a provider, or holds under `type` a
/// string short enough for spans.
pub open spec fn argument_definition_well_formed(argument: FragmentArgument) -> bool {
    match argument.value {
        Value::Constant(ConstantValue::Object { fields, .. }) => spec_position(
            field_names(fields@),
            "provider"@,
            0,
        ) is Some || match spec_position(field_names(fields@), "type"@, 0) {
            Some(at) => match fields[at].value {
                ConstantValue::String(node) => fits_in_span(node.value@, 0),
                _ => false,
            },
            None => false,
        },
        _ => false,
    }
}

impl FragmentDefinition {
    /// Every argument that the fragment defines can be read.
    pub open spec fn spec_argument_definitions_well_formed(&self) -> bool {
        match argument_definitions(*self) {
            Some(arguments) => forall|i: int|
                0 <= i < arguments.len() ==> argument_definition_well_formed(#[trigger] arguments[i]),
            None => true,
        }
    }
}

/// What the definition of a fragment argument gives: nothing for one that
/// names a provider; else the argument with its name, the type read from
/// the string under `type`, and the value under `defaultValue` if there
/// is one; or the error of reading the type. The type string has no place
/// of its own in the file: its spans count from zero.
pub open spec fn spec_fragment_argument(
    argument: FragmentArgument,
    source_location: SourceLocationKey,
) -> Option<Result<ArgumentView, Seq<DiagnosticView>>> {
    match argument.value {
        Value::Constant(ConstantValue::Object { fields, .. }) => {
            let names = field_names(fields@);
            if spec_position(names, "provider"@, 0) is Some {
                None
            } else {
                match spec_position(names, "type"@, 0) {
                    Some(at) => match fields[at].value {
                        ConstantValue::String(node) => Some(
                            match spec_parse_type(node.value@, 0) {
                                Ok(type_) => Ok(
                                    ArgumentView {
                                        name: argument.name.deep_view(),
                                        type_,
                                        default_value: match spec_position(
                                            names,
                                            "defaultValue"@,
                                            0,
                                        ) {
                                            Some(default_at) => Some(
                                                fields[default_at].value.deep_view(),
                                            ),
                                            None => None,
                                        },
                                    },
                                ),
                                Err(error) => Err(syntax_failure(error, source_location)),
                            },
                        ),
                        _ => None,
                    },
                    None => None,
                }
            }
        },
        _ => None,
    }
}

/// What the first `count` definitions of fragment arguments give: the
/// arguments in order, or the first error.
pub open spec fn spec_fragment_arguments(
    arguments: Seq<FragmentArgument>,
    source_location: SourceLocationKey,
    count: int,
) -> Result<Seq<ArgumentView>, Seq<DiagnosticView>>
    decreases count,
{
    if count <= 0 {
        Ok(Seq::empty())
    } else {
        match spec_fragment_arguments(arguments, source_location, count - 1) {
            Err(diagnostics) => Err(diagnostics),
            Ok(front) => match spec_fragment_argument(arguments[count - 1], source_location) {
                None => Ok(front),
                Some(Ok(argument)) => Ok(front.push(argument)),
                Some(Err(diagnostics)) => Err(diagnostics),
            },
        }
    }
}

/// The arguments of a fragment: nothing where it defines none.
pub open spec fn spec_extract_fragment_arguments(fragment: FragmentDefinition) -> Option<
    Result<Seq<ArgumentView>, Seq<DiagnosticView>>,
> {
    match argument_definitions(fragment) {
        Some(arguments) => Some(
            spec_fragment_arguments(
                arguments,
                fragment.location.source_location,
                arguments.len() as int,
            ),
        ),
        None => None,
    }
}

/// The first field of an object value that is named `name`.
fn find_field<'a>(fields: &'a Vec<ConstantArgument>, name: &str) -> (found: Option<
    &'a ConstantArgument,
>)
    ensures
        match found {
            Some(field) => match spec_position(field_names(fields@), name@, 0) {
                Some(at) => 0 <= at < fields.len() && *field == fields[at],
                None => false,
            },
            None => spec_position(field_names(fields@), name@, 0) is None,
        },
{
    let mut i: usize = 0;
    while i < fields.len()
        invariant
            i <= fields.len(),
            spec_position(field_names(fields@), name@, 0) == spec_position(
                field_names(fields@),
                name@,
                i as int,
            ),
        decreases fields.len() - i,
    {
        if texts_equal(fields[i].name.value.as_str(), name) {
            return Some(&fields[i]);
        }
        i += 1;
    }
    None
}

/// The first directive that is named `name`.
fn find_directive<'a>(directives: &'a Vec<Directive>, name: &str) -> (found: Option<&'a Directive>)
    ensures
        match found {
            Some(directive) => match spec_position(directive_names(directives@), name@, 0) {
                Some(at) => 0 <= at < directives.len() && *directive == directives[at],
                None => false,
            },
            None => spec_position(directive_names(directives@), name@, 0) is None,
        },
{
    let mut i: usize = 0;
    while i < directives.len()
        invariant
            i <= directives.len(),
            spec_position(directive_names(directives@), name@, 0) == spec_position(
                directive_names(directives@),
                name@,
                i as int,
            ),
        decreases directives.len() - i,
    {
        if texts_equal(directives[i].name.value.as_str(), name) {
            return Some(&directives[i]);
        }
        i += 1;
    }
    None
}

/// Reads one definition of a fragment argument.
fn extract_fragment_argument(argument: &FragmentArgument, source_location: SourceLocationKey) -> (result:
    Option<DiagnosticsResult<Argument>>)
    requires
        argument_definition_well_formed(*argument),
    ensures
        match (result, spec_fragment_argument(*argument, source_location)) {
            (None, None) => true,
            (Some(read), Some(expected)) => resolved_as(read, expected),
            _ => false,
        },
{
    match &argument.value {
        Value::Constant(ConstantValue::Object { fields, .. }) => {
            if find_field(fields, "provider").is_some() {
                return None;
            }
            let type_field = match find_field(fields, "type") {
                Some(field) => field,
                None => {
                    return None;
                },
            };
            let default_value = match find_field(fields, "defaultValue") {
                Some(field) => Some(field.value.duplicate()),
                None => None,
            };
            match &type_field.value {
                ConstantValue::String(node) => Some(
                    match parse_type(node.value.as_str(), 0) {
                        Ok(type_) => Ok(
                            Argument { name: argument.name.duplicate(), type_, default_value },
                        ),
                        Err(error) => Err(
                            one_diagnostic(Diagnostic::syntax(error, source_location)),
                        ),
                    },
                ),
                _ => None,
            }
        },
        _ => None,
    }
}

/// Reads the arguments that a fragment defines in its directive
/// `@argumentDefinitions`.
#[verifier::loop_isolation(false)]
pub fn extract_fragment_arguments(fragment_definition: &FragmentDefinition) -> (result: Option<
    DiagnosticsResult<Vec<Argument>>,
>)
    requires
        fragment_definition.spec_argument_definitions_well_formed(),
    ensures
        match (result, spec_extract_fragment_arguments(*fragment_definition)) {
            (None, None) => true,
            (Some(read), Some(expected)) => resolved_as(read, expected),
            _ => false,
        },
{
    let directive = match find_directive(&fragment_definition.directives, "argumentDefinitions") {
        Some(directive) => directive,
        None => {
            return None;
        },
    };
    let arguments = match &directive.arguments {
        Some(arguments) => arguments,
        None => {
            return None;
        },
    };
    let source_location = fragment_definition.location.source_location();
    let mut extracted: Vec<Argument> = Vec::new();
    proof {
        assert(extracted.deep_view() =~= Seq::empty());
    }
    let mut i: usize = 0;
    while i < arguments.items.len()
        invariant
            i <= arguments.items.len(),
            argument_definitions(*fragment_definition) == Some(arguments.items@),
            fragment_definition.spec_argument_definitions_well_formed(),
            spec_fragment_arguments(arguments.items@, source_location, i as int) == Ok::<
                _,
                Seq<DiagnosticView>,
            >(extracted.deep_view()),
        decreases arguments.items.len() - i,
    {
        match extract_fragment_argument(&arguments.items[i], source_location) {
            None => {},
            Some(Ok(argument)) => {
                let ghost before = extracted;
                let ghost added = argument;
                extracted.push(argument);
                proof {
                    crate::parser::lemma_deep_view_push(before, extracted, added);
                }
            },
            Some(Err(diagnostics)) => {
                proof {
                    lemma_fragment_arguments_error(
                        arguments.items@,
                        source_location,
                        i as int + 1,
                        arguments.items.len() as int,
                    );
                }
                return Some(Err(diagnostics));
            },
        }
        i += 1;
    }
    Some(Ok(extracted))
}

/// An error among the first definitions is the error of all of them.
pub proof fn lemma_fragment_arguments_error(
    arguments: Seq<FragmentArgument>,
    source_location: SourceLocationKey,
    count: int,
    total: int,
)
    requires
        0 <= count <= total,
        spec_fragment_arguments(arguments, source_location, count) is Err,
    ensures
        spec_fragment_arguments(arguments, source_location, total) == spec_fragment_arguments(
            arguments,
            source_location,
            count,
        ),
    decreases total - count,
{
    if count < total {
        lemma_fragment_arguments_error(arguments, source_location, count, total - 1);
    }
}

/// The names of arguments, in order.
pub open spec fn argument_names(arguments: Seq<ArgumentView>) -> Seq<Seq<char>> {
    Seq::new(arguments.len(), |i: int| arguments[i].name.value)
}

/// The first argument of the field, at or after `from`, whose name an
/// argument of the fragment has too, with the first such argument of the
/// fragment.
pub open spec fn first_conflict(
    field_arguments: Seq<InputValueDefinitionView>,
    fragment_arguments: Seq<ArgumentView>,
    from: int,
) -> Option<(int, int)>
    decreases field_arguments.len() - from,
{
    if from < 0 || from >= field_arguments.len() {
        None
    } else {
        match spec_position(
            argument_names(fragment_arguments),
            field_arguments[from].name.value,
            0,
        ) {
            Some(at) => Some((from, at)),
            None => first_conflict(field_arguments, fragment_arguments, from + 1),
        }
    }
}

/// The error for the first argument of the field that shares its name
/// with an argument of the fragment: it points at the field's argument
/// and notes the fragment's.
pub open spec fn spec_validate_fragment_arguments(
    field_source_location: SourceLocationKey,
    field_arguments: InputValueDefinitionListView,
    fragment_source_location: SourceLocationKey,
    fragment_arguments: Seq<ArgumentView>,
) -> Option<Seq<DiagnosticView>> {
    match first_conflict(field_arguments.items, fragment_arguments, 0) {
        Some((field_at, fragment_at)) => Some(
            seq![
                DiagnosticView::ir(
                    IrParsingErrorMessagesView::ConflictingArguments,
                    Location {
                        source_location: field_source_location,
                        span: field_arguments.items[field_at].name.span,
                    },
                ).annotate(
                    "conflicts with this fragment argument"@,
                    Location {
                        source_location: fragment_source_location,
                        span: fragment_arguments[fragment_at].name.span,
                    },
                ),
            ],
        ),
        None => None,
    }
}

/// The first argument that is named `name`.
fn find_argument<'a>(arguments: &'a Vec<Argument>, name: &str) -> (found: Option<&'a Argument>)
    ensures
        match found {
            Some(argument) => match spec_position(
                argument_names(arguments.deep_view()),
                name@,
                0,
            ) {
                Some(at) => 0 <= at < arguments.len() && *argument == arguments[at],
                None => false,
            },
            None => spec_position(argument_names(arguments.deep_view()), name@, 0) is None,
        },
{
    let mut i: usize = 0;
    while i < arguments.len()
        invariant
            i <= arguments.len(),
            spec_position(argument_names(arguments.deep_view()), name@, 0) == spec_position(
                argument_names(arguments.deep_view()),
                name@,
                i as int,
            ),
        decreases arguments.len() - i,
    {
        if texts_equal(arguments[i].name.value.as_str(), name) {
            return Some(&arguments[i]);
        }
        i += 1;
    }
    None
}

/// Turns away an argument of the field that has the name of an argument
/// of the fragment.
pub fn validate_fragment_arguments(
    field_source_location: SourceLocationKey,
    field_arguments: &InputValueDefinitionList,
    fragment_source_location: SourceLocationKey,
    fragment_arguments: &Vec<Argument>,
) -> (result: DiagnosticsResult<()>)
    ensures
        match result {
            Ok(_) => spec_validate_fragment_arguments(
                field_source_location,
                field_arguments.deep_view(),
                fragment_source_location,
                fragment_arguments.deep_view(),
            ) is None,
            Err(diagnostics) => spec_validate_fragment_arguments(
                field_source_location,
                field_arguments.deep_view(),
                fragment_source_location,
                fragment_arguments.deep_view(),
            ) == Some(diagnostics.deep_view()),
        },
{
    let ghost field_views = field_arguments.items.deep_view();
    let ghost fragment_views = fragment_arguments.deep_view();
    let mut i: usize = 0;
    while i < field_arguments.items.len()
        invariant
            i <= field_arguments.items.len(),
            field_views == field_arguments.items.deep_view(),
            fragment_views == fragment_arguments.deep_view(),
            first_conflict(field_views, fragment_views, 0) == first_conflict(
                field_views,
                fragment_views,
                i as int,
            ),
        decreases field_arguments.items.len() - i,
    {
        let field_arg = &field_arguments.items[i];
        match find_argument(fragment_arguments, field_arg.name.value.as_str()) {
            Some(fragment_arg) => {
                return Err(
                    one_diagnostic(
                        Diagnostic::ir(
                            IrParsingErrorMessages::ConflictingArguments,
                            Location::new(field_source_location, field_arg.name.span),
                        ).annotate(
                            "conflicts with this fragment argument",
                            Location::new(fragment_source_location, fragment_arg.name.span),
                        ),
                    ),
                );
            },
            None => {},
        }
        i += 1;
    }
    Ok(())
}

} // verus!

verus! {

/// The field under `name`, if the map holds one.
pub open spec fn field_of(fields: Map<AllowedFieldName, IrField>, name: AllowedFieldName) -> Option<
    IrField,
> {
    if fields.contains_key(name) {
        Some(fields[name])
    } else {
        None
    }
}

/// The fragment that a root-fragment field names can be read: it is
/// absent from the file, or every argument it defines is well formed.
pub open spec fn root_fragment_readable(
    root_fragment: Option<PopulatedIrField>,
    definitions: Seq<ExecutableDefinition>,
) -> bool {
    match root_fragment {
        Some(root_fragment) => match find_fragment(definitions, root_fragment.value.item@, 0) {
            Some(at) => definitions[at]->Fragment_0.spec_argument_definitions_well_formed(),
            None => true,
        },
        None => true,
    }
}

/// What the root fragment of a field gives: the type it is on, with its
/// place, and the arguments it defines; nothing of either where no root
/// fragment is named. The errors: the fragment is not in the file, an
/// argument's type cannot be read, or an argument of the field has the
/// name of an argument of the fragment.
pub open spec fn spec_parse_fragment_definition(
    root_fragment: Option<PopulatedIrField>,
    source_location: SourceLocationKey,
    field_arguments: Option<InputValueDefinitionListView>,
    definitions: Seq<ExecutableDefinition>,
) -> Result<(Option<LocatedString>, Option<Seq<ArgumentView>>), Seq<DiagnosticView>> {
    match root_fragment {
        None => Ok((None, None)),
        Some(root_fragment) => match spec_assert_fragment_definition(
            root_fragment.value,
            root_fragment.value.item@,
            definitions,
        ) {
            Err(diagnostic) => Err(seq![diagnostic]),
            Ok(fragment) => match spec_extract_fragment_arguments(fragment) {
                Some(Err(diagnostics)) => Err(diagnostics),
                Some(Ok(arguments)) => match spec_fragment_conflict(
                    source_location,
                    field_arguments,
                    fragment,
                    arguments,
                ) {
                    Some(diagnostics) => Err(diagnostics),
                    None => Ok((Some(spec_type_condition(fragment)), Some(arguments))),
                },
                None => Ok((Some(spec_type_condition(fragment)), None)),
            },
        },
    }
}

/// The type that a fragment is on, with its place.
pub open spec fn spec_type_condition(fragment: FragmentDefinition) -> LocatedString {
    LocatedString {
        location: Location {
            source_location: fragment.location.source_location,
            span: fragment.type_condition.span,
        },
        item: fragment.type_condition.type_.value,
    }
}

/// The error for an argument of the field that has the name of an
/// argument of the fragment; nothing where the field has no arguments.
pub open spec fn spec_fragment_conflict(
    source_location: SourceLocationKey,
    field_arguments: Option<InputValueDefinitionListView>,
    fragment: FragmentDefinition,
    arguments: Seq<ArgumentView>,
) -> Option<Seq<DiagnosticView>> {
    match field_arguments {
        Some(field_arguments) => spec_validate_fragment_arguments(
            source_location,
            field_arguments,
            fragment.location.source_location,
            arguments,
        ),
        None => None,
    }
}

/// Looks up the root fragment of a field and reads what the field needs
/// of it.
pub fn parse_fragment_definition(
    root_fragment: Option<&PopulatedIrField>,
    source_location: SourceLocationKey,
    field_arguments: &Option<InputValueDefinitionList>,
    definitions_in_file: Option<&Vec<ExecutableDefinition>>,
) -> (result: DiagnosticsResult<(Option<LocatedString>, Option<Vec<Argument>>)>)
    requires
        root_fragment_readable(
            match root_fragment {
                Some(field) => Some(*field),
                None => None,
            },
            definitions_of(definitions_in_file),
        ),
    ensures
        match (
            result,
            spec_parse_fragment_definition(
                match root_fragment {
                    Some(field) => Some(*field),
                    None => None,
                },
                source_location,
                field_arguments.deep_view(),
                definitions_of(definitions_in_file),
            ),
        ) {
            (Ok((condition, arguments)), Ok((expected_condition, expected_arguments))) => condition
                == expected_condition && arguments.deep_view() == expected_arguments,
            (Err(diagnostics), Err(expected)) => diagnostics.deep_view() == expected,
            _ => false,
        },
{
    let root_fragment = match root_fragment {
        Some(root_fragment) => root_fragment,
        None => {
            return Ok((None, None));
        },
    };
    let fragment_definition = match assert_fragment_definition(
        &root_fragment.value,
        root_fragment.value.item.as_str(),
        definitions_in_file,
    ) {
        Ok(fragment) => fragment,
        Err(diagnostic) => {
            return Err(one_diagnostic(diagnostic));
        },
    };
    proof {
        crate::docblock_ir::lemma_find_fragment(
            definitions_of(definitions_in_file),
            root_fragment.value.item@,
            0,
        );
    }
    let fragment_arguments = match extract_fragment_arguments(fragment_definition) {
        Some(Err(diagnostics)) => {
            return Err(diagnostics);
        },
        Some(Ok(arguments)) => Some(arguments),
        None => None,
    };
    match (field_arguments, &fragment_arguments) {
        (Some(field_arguments), Some(fragment_arguments)) => {
            match validate_fragment_arguments(
                source_location,
                field_arguments,
                fragment_definition.location.source_location(),
                fragment_arguments,
            ) {
                Err(diagnostics) => {
                    return Err(diagnostics);
                },
                Ok(_) => {},
            }
        },
        _ => {},
    }
    let fragment_type_condition = LocatedString {
        location: Location::new(
            fragment_definition.location.source_location(),
            fragment_definition.type_condition.span,
        ),
        item: fragment_definition.type_condition.type_.value.clone(),
    };
    Ok((Some(fragment_type_condition), fragment_arguments))
}

/// What `find_fragment` finds is a fragment of the list.
pub proof fn lemma_find_fragment(definitions: Seq<ExecutableDefinition>, name: Seq<char>, from: int)
    requires
        0 <= from,
    ensures
        match find_fragment(definitions, name, from) {
            Some(at) => from <= at < definitions.len() && definitions[at] is Fragment
                && definitions[at]->Fragment_0.name.value@ == name,
            None => true,
        },
    decreases definitions.len() - from,
{
    if from < definitions.len() && !(definitions[from] is Fragment
        && definitions[from]->Fragment_0.name.value@ == name) {
        lemma_find_fragment(definitions, name, from + 1);
    }
}

/// The name of a type and the interfaces it implements, as the value of
/// a field gives them, or the diagnostics of the syntax error.
pub open spec fn spec_type_declaration(value: LocatedString) -> Result<
    (IdentifierView, Seq<IdentifierView>),
    Seq<DiagnosticView>,
> {
    match spec_parse_identifier_and_implements_interfaces(value.item@, value.location.span.start) {
        Ok(declaration) => Ok(declaration),
        Err(error) => Err(syntax_failure(error, value.location.source_location)),
    }
}

/// Why no strong object can be built: the value is no type declaration,
/// or the field `@live` has a value.
pub open spec fn spec_strong_object_failure(
    fields: Map<AllowedFieldName, IrField>,
    value: LocatedString,
) -> Option<Seq<DiagnosticView>> {
    match spec_type_declaration(value) {
        Err(diagnostics) => Some(diagnostics),
        Ok(_) => match spec_optional_unpopulated(fields, AllowedFieldName::LiveField) {
            Err(diagnostic) => Some(seq![diagnostic]),
            Ok(_) => None,
        },
    }
}

/// The fields that the strong object builder leaves: all of them where
/// the value is no type declaration, else all but `@deprecated` and
/// `@live`.
pub open spec fn spec_strong_object_fields_after(
    fields: Map<AllowedFieldName, IrField>,
    value: LocatedString,
) -> Map<AllowedFieldName, IrField> {
    match spec_type_declaration(value) {
        Err(_) => fields,
        Ok(_) => fields.remove(AllowedFieldName::DeprecatedField).remove(
            AllowedFieldName::LiveField,
        ),
    }
}

/// `ir` is the strong object that the inputs declare: the type's name and
/// interfaces are those of the value; the root fragment's name is made of
/// the project, the type's name and the key field, and stands at no place
/// in a file; the fields `@deprecated` and `@live` are those of the map;
/// the rest is handed through.
pub open spec fn is_strong_object(
    ir: StrongObjectIr,
    project_name: ProjectName,
    fields: Map<AllowedFieldName, IrField>,
    description: Option<LocatedString>,
    location: Location,
    relay_resolver_field: PopulatedIrField,
    source_hash: ResolverSourceHash,
) -> bool {
    match spec_type_declaration(relay_resolver_field.value) {
        Err(_) => false,
        Ok((name, interfaces)) => {
            &&& ir.typename.deep_view() == name
            &&& ir.rhs_location == relay_resolver_field.value.location
            &&& ir.root_fragment.location == (Location {
                source_location: SourceLocationKey::Generated,
                span: Span { start: 0, end: 0 },
            })
            &&& ir.root_fragment.item@ == project_name.spec_generate_name_for_object_and_field(
                name.value,
                spec_key_resolver_id_field(),
            )
            &&& ir.description == description
            &&& ir.deprecated == field_of(fields, AllowedFieldName::DeprecatedField)
            &&& spec_optional_unpopulated(fields, AllowedFieldName::LiveField) == Ok::<
                _,
                DiagnosticView,
            >(ir.live)
            &&& ir.semantic_non_null is None
            &&& ir.location == location
            &&& ir.implements_interfaces.deep_view() == interfaces
            &&& ir.source_hash == source_hash
            &&& !ir.type_confirmed
        },
    }
}

/// Reads the name of a type and the interfaces it implements from the
/// value of a field.
pub fn parse_type_declaration(relay_resolver_field: &PopulatedIrField) -> (result:
    DiagnosticsResult<(Identifier, Vec<Identifier>)>)
    requires
        relay_resolver_field.spec_fits(),
    ensures
        match (result, spec_type_declaration(relay_resolver_field.value)) {
            (Ok((name, interfaces)), Ok((expected_name, expected_interfaces))) => name.deep_view()
                == expected_name && interfaces.deep_view() == expected_interfaces,
            (Err(diagnostics), Err(expected)) => diagnostics.deep_view() == expected,
            _ => false,
        },
{
    let type_str = &relay_resolver_field.value;
    match parse_identifier_and_implements_interfaces(
        type_str.item.as_str(),
        type_str.location.span().start,
    ) {
        Ok(declaration) => Ok(declaration),
        Err(error) => Err(
            one_diagnostic(Diagnostic::syntax(error, type_str.location.source_location())),
        ),
    }
}

/// Builds a strong object from the value of the resolver tag and claims
/// the fields `@deprecated` and `@live`.
pub fn parse_strong_object_ir(
    project_name: &ProjectName,
    fields: &mut FieldMap,
    description: Option<LocatedString>,
    location: Location,
    relay_resolver_field: PopulatedIrField,
    source_hash: ResolverSourceHash,
) -> (result: DiagnosticsResult<StrongObjectIr>)
    requires
        relay_resolver_field.spec_fits(),
    ensures
        final(fields)@ == spec_strong_object_fields_after(old(fields)@, relay_resolver_field.value),
        match result {
            Ok(ir) => spec_strong_object_failure(old(fields)@, relay_resolver_field.value) is None
                && is_strong_object(
                ir,
                *project_name,
                old(fields)@,
                description,
                location,
                relay_resolver_field,
                source_hash,
            ),
            Err(diagnostics) => spec_strong_object_failure(
                old(fields)@,
                relay_resolver_field.value,
            ) == Some(diagnostics.deep_view()),
        },
{
    let (identifier, implements_interfaces) = match parse_type_declaration(&relay_resolver_field) {
        Ok(declaration) => declaration,
        Err(diagnostics) => {
            return Err(diagnostics);
        },
    };
    let fragment_name = project_name.generate_name_for_object_and_field(
        identifier.value.as_str(),
        key_resolver_id_field(),
    );
    let deprecated = fields.remove(AllowedFieldName::DeprecatedField);
    let live = match get_optional_unpopulated_field_named(fields, AllowedFieldName::LiveField) {
        Ok(live) => live,
        Err(diagnostic) => {
            return Err(one_diagnostic(diagnostic));
        },
    };
    Ok(
        StrongObjectIr {
            typename: identifier,
            rhs_location: relay_resolver_field.value.location,
            root_fragment: LocatedString::generated(fragment_name),
            description,
            deprecated,
            live,
            location,
            implements_interfaces,
            source_hash,
            semantic_non_null: None,
            type_confirmed: false,
        },
    )
}

/// The name of a weak type and the interfaces it implements: read as a
/// type declaration where interfaces are enabled, else the value must be
/// the name and nothing else.
pub open spec fn spec_weak_declaration(value: LocatedString, parse_options: ParseOptions) -> Result<
    (IdentifierView, Seq<IdentifierView>),
    Seq<DiagnosticView>,
> {
    if parse_options.enable_interface_output_type.spec_is_fully_enabled() {
        spec_type_declaration(value)
    } else {
        match spec_assert_only_identifier(value) {
            Ok(name) => Ok((name, Seq::empty())),
            Err(diagnostics) => Err(diagnostics),
        }
    }
}

/// Why no weak object can be built: the value does not declare one.
pub open spec fn spec_weak_object_failure(value: LocatedString, parse_options: ParseOptions) -> Option<
    Seq<DiagnosticView>,
> {
    match spec_weak_declaration(value, parse_options) {
        Err(diagnostics) => Some(diagnostics),
        Ok(_) => None,
    }
}

/// The fields that the weak object builder leaves: all of them where the
/// value declares no type, else all but `@deprecated`.
pub open spec fn spec_weak_object_fields_after(
    fields: Map<AllowedFieldName, IrField>,
    value: LocatedString,
    parse_options: ParseOptions,
) -> Map<AllowedFieldName, IrField> {
    match spec_weak_declaration(value, parse_options) {
        Err(_) => fields,
        Ok(_) => fields.remove(AllowedFieldName::DeprecatedField),
    }
}

/// `ir` is the weak object that the inputs declare. It has no root
/// fragment.
pub open spec fn is_weak_object(
    ir: WeakObjectIr,
    fields: Map<AllowedFieldName, IrField>,
    description: Option<LocatedString>,
    hack_source: Option<LocatedString>,
    location: Location,
    relay_resolver_field: PopulatedIrField,
    source_hash: ResolverSourceHash,
    parse_options: ParseOptions,
) -> bool {
    match spec_weak_declaration(relay_resolver_field.value, parse_options) {
        Err(_) => false,
        Ok((name, interfaces)) => {
            &&& ir.typename.deep_view() == name
            &&& ir.rhs_location == relay_resolver_field.value.location
            &&& ir.description == description
            &&& ir.hack_source == hack_source
            &&& ir.deprecated == field_of(fields, AllowedFieldName::DeprecatedField)
            &&& ir.location == location
            &&& ir.implements_interfaces.deep_view() == interfaces
            &&& ir.source_hash == source_hash
            &&& !ir.type_confirmed
        },
    }
}

/// Builds a weak object from the value of the resolver tag and claims the
/// field `@deprecated`.
pub fn parse_weak_object_ir(
    fields: &mut FieldMap,
    description: Option<LocatedString>,
    hack_source: Option<LocatedString>,
    location: Location,
    relay_resolver_field: PopulatedIrField,
    _weak_field: UnpopulatedIrField,
    source_hash: ResolverSourceHash,
    parse_options: &ParseOptions<'_>,
) -> (result: DiagnosticsResult<WeakObjectIr>)
    requires
        relay_resolver_field.spec_fits(),
    ensures
        final(fields)@ == spec_weak_object_fields_after(
            old(fields)@,
            relay_resolver_field.value,
            *parse_options,
        ),
        match result {
            Ok(ir) => spec_weak_object_failure(relay_resolver_field.value, *parse_options) is None
                && is_weak_object(
                ir,
                old(fields)@,
                description,
                hack_source,
                location,
                relay_resolver_field,
                source_hash,
                *parse_options,
            ),
            Err(diagnostics) => spec_weak_object_failure(
                relay_resolver_field.value,
                *parse_options,
            ) == Some(diagnostics.deep_view()),
        },
{
    let (identifier, implements_interfaces) =
        if parse_options.enable_interface_output_type.is_fully_enabled() {
        match parse_type_declaration(&relay_resolver_field) {
            Ok(declaration) => declaration,
            Err(diagnostics) => {
                return Err(diagnostics);
            },
        }
    } else {
        match assert_only_identifier(&relay_resolver_field) {
            Ok(identifier) => {
                let interfaces: Vec<Identifier> = Vec::new();
                proof {
                    assert(interfaces.deep_view() =~= Seq::empty());
                }
                (identifier, interfaces)
            },
            Err(diagnostics) => {
                return Err(diagnostics);
            },
        }
    };
    Ok(
        WeakObjectIr {
            typename: identifier,
            rhs_location: relay_resolver_field.value.location,
            description,
            hack_source,
            deprecated: fields.remove(AllowedFieldName::DeprecatedField),
            location,
            implements_interfaces,
            source_hash,
            type_confirmed: false,
        },
    )
}

} // verus!

verus! {

/// The parent type and the field that a terse value declares: a name, a
/// period directly behind it, and a field definition up to the end of the
/// value. The errors: a syntax error, or a character other than a period
/// behind the name, reported at the one byte where it begins.
pub open spec fn spec_terse_field(value: LocatedString) -> Result<
    (IdentifierView, FieldDefinitionView),
    Seq<DiagnosticView>,
> {
    let text = value.item@;
    let base = value.location.span.start;
    let source_location = value.location.source_location;
    match spec_identifier(text, base, 0) {
        Err(error) => Err(syntax_failure(error, source_location)),
        Ok((parent, end)) => if 0 <= end < text.len() && text[end] != '.' {
            Err(
                seq![
                    DiagnosticView::ir(
                        IrParsingErrorMessagesView::UnexpectedNonDot { found: text[end] },
                        Location {
                            source_location,
                            span: Span {
                                start: offset_at(text, base, end) as u32,
                                end: (offset_at(text, base, end) + 1) as u32,
                            },
                        },
                    ),
                ],
            )
        } else {
            match spec_field_definition(text, base, end + 1) {
                Err(error) => Err(syntax_failure(error, source_location)),
                Ok((field, after)) => match spec_end_of_input(text, base, after) {
                    Some(error) => Err(syntax_failure(error, source_location)),
                    None => Ok((parent, field)),
                },
            }
        },
    }
}

/// In a value that holds a period, the name it begins with ends before
/// the end of the value.
pub proof fn lemma_parent_type_ends_early(text: Seq<char>, base: u32)
    requires
        text.contains('.'),
        spec_identifier(text, base, 0) is Ok,
    ensures
        0 <= spec_identifier(text, base, 0)->Ok_0.1 < text.len(),
{
    crate::lexer::lemma_name_lexeme_has_no_period(text, 0);
    let at = choose|i: int| 0 <= i < text.len() && text[i] == '.';
    assert(text[at] == '.');
}

/// Reads the parent type and the field of a terse value.
pub fn parse_terse_field(relay_resolver_field: &PopulatedIrField) -> (result: DiagnosticsResult<
    (Identifier, FieldDefinition),
>)
    requires
        relay_resolver_field.spec_fits(),
        relay_resolver_field.value.item@.contains('.'),
    ensures
        match (result, spec_terse_field(relay_resolver_field.value)) {
            (Ok((parent, field)), Ok((expected_parent, expected_field))) => parent.deep_view()
                == expected_parent && field.deep_view() == expected_field,
            (Err(diagnostics), Err(expected)) => diagnostics.deep_view() == expected,
            _ => false,
        },
{
    let type_str = &relay_resolver_field.value;
    let source_location = type_str.location.source_location();
    let src = Source::new(type_str.item.as_str(), type_str.location.span().start);
    let (parent, end) = match parse_identifier_at(&src, 0) {
        Ok(read) => read,
        Err(error) => {
            return Err(one_diagnostic(Diagnostic::syntax(error, source_location)));
        },
    };
    proof {
        lemma_parent_type_ends_early(src.chars@, src.base);
        crate::source::lemma_utf8_len_step(src.chars@, end as int);
        crate::source::lemma_offset_monotonic(
            src.chars@,
            end as int + 1,
            src.chars@.len() as int,
        );
        assert(src.chars@.take(src.chars@.len() as int) =~= src.chars@);
    }
    let found = src.chars[end];
    if found != '.' {
        let start = src.offset(end);
        return Err(
            one_diagnostic(
                Diagnostic::ir(
                    IrParsingErrorMessages::UnexpectedNonDot { found },
                    type_str.location.with_span(Span::new(start, start + 1)),
                ),
            ),
        );
    }
    let (field, after) = match parse_field_definition_at(&src, end + 1) {
        Ok(read) => read,
        Err(error) => {
            return Err(one_diagnostic(Diagnostic::syntax(error, source_location)));
        },
    };
    match parse_end_of_input(&src, after) {
        Some(error) => Err(one_diagnostic(Diagnostic::syntax(error, source_location))),
        None => Ok((parent, field)),
    }
}

/// The error for a fragment that is on another type than the parent type
/// of the field: it points at the parent type and notes the fragment's
/// type.
pub open spec fn spec_condition_mismatch(
    condition: Option<LocatedString>,
    parent: IdentifierView,
    value_location: Location,
) -> Option<Seq<DiagnosticView>> {
    match condition {
        Some(condition) => if condition.item@ != parent.value {
            Some(
                seq![
                    DiagnosticView::ir(
                        IrParsingErrorMessagesView::MismatchRootFragmentTypeConditionTerseSyntax {
                            fragment_type_condition: condition.item@,
                            parent_type: parent.value,
                        },
                        Location {
                            source_location: value_location.source_location,
                            span: parent.span,
                        },
                    ).annotate("with fragment type condition"@, condition.location),
                ],
            )
        } else {
            None
        },
        None => None,
    }
}

/// Why the value of a terse resolver and its root fragment give no field:
/// the first of a syntax error, a type that excludes null where that is
/// not allowed, default values of arguments, a root fragment that cannot
/// be had or read, an argument shared with the fragment, and a fragment
/// on another type.
pub open spec fn spec_terse_value_failure(
    root_fragment: Option<PopulatedIrField>,
    relay_resolver_field: PopulatedIrField,
    definitions: Seq<ExecutableDefinition>,
    location: Location,
    parse_options: ParseOptions,
) -> Option<Seq<DiagnosticView>> {
    let value = relay_resolver_field.value;
    match spec_terse_field(value) {
        Err(diagnostics) => Some(diagnostics),
        Ok((parent, field)) => match spec_validate_field_type_annotation(
            field,
            value.location.source_location,
            parse_options,
        ) {
            Some(diagnostics) => Some(diagnostics),
            None => if spec_validate_field_arguments(
                field.arguments,
                location.source_location,
            ).len() > 0 {
                Some(spec_validate_field_arguments(field.arguments, location.source_location))
            } else {
                match spec_parse_fragment_definition(
                    root_fragment,
                    value.location.source_location,
                    field.arguments,
                    definitions,
                ) {
                    Err(diagnostics) => Some(diagnostics),
                    Ok((condition, _)) => spec_condition_mismatch(
                        condition,
                        parent,
                        value.location,
                    ),
                }
            },
        },
    }
}

/// Why no terse resolver can be built: a root or return fragment field
/// without a value, what `spec_terse_value_failure` says, or a field
/// `@live` with a value.
pub open spec fn spec_terse_failure(
    fields: Map<AllowedFieldName, IrField>,
    relay_resolver_field: PopulatedIrField,
    definitions: Seq<ExecutableDefinition>,
    location: Location,
    parse_options: ParseOptions,
) -> Option<Seq<DiagnosticView>> {
    match spec_optional_populated(fields, AllowedFieldName::RootFragmentField) {
        Err(diagnostic) => Some(seq![diagnostic]),
        Ok(root_fragment) => match spec_optional_populated(
            fields,
            AllowedFieldName::ReturnFragmentField,
        ) {
            Err(diagnostic) => Some(seq![diagnostic]),
            Ok(_) => match spec_terse_value_failure(
                root_fragment,
                relay_resolver_field,
                definitions,
                location,
                parse_options,
            ) {
                Some(diagnostics) => Some(diagnostics),
                None => match spec_optional_unpopulated(fields, AllowedFieldName::LiveField) {
                    Err(diagnostic) => Some(seq![diagnostic]),
                    Ok(_) => None,
                },
            },
        },
    }
}

/// The fields that the terse builder leaves: the root fragment is taken
/// first, then the return fragment, and once the value has given a field,
/// `@deprecated` and `@live`.
pub open spec fn spec_terse_fields_after(
    fields: Map<AllowedFieldName, IrField>,
    relay_resolver_field: PopulatedIrField,
    definitions: Seq<ExecutableDefinition>,
    location: Location,
    parse_options: ParseOptions,
) -> Map<AllowedFieldName, IrField> {
    let without_root = fields.remove(AllowedFieldName::RootFragmentField);
    let without_fragments = without_root.remove(AllowedFieldName::ReturnFragmentField);
    match spec_optional_populated(fields, AllowedFieldName::RootFragmentField) {
        Err(_) => without_root,
        Ok(root_fragment) => if spec_optional_populated(
            fields,
            AllowedFieldName::ReturnFragmentField,
        ) is Err || spec_terse_value_failure(
            root_fragment,
            relay_resolver_field,
            definitions,
            location,
            parse_options,
        ) is Some {
            without_fragments
        } else {
            without_fragments.remove(AllowedFieldName::DeprecatedField).remove(
                AllowedFieldName::LiveField,
            )
        },
    }
}

/// The names of directives, in order.
pub open spec fn constant_directive_names(directives: Seq<ConstantDirectiveView>) -> Seq<Seq<char>> {
    Seq::new(directives.len(), |i: int| directives[i].name.value)
}

/// The first directive `@semanticNonNull` among `directives`.
pub open spec fn spec_semantic_non_null(directives: Seq<ConstantDirectiveView>) -> Option<
    ConstantDirectiveView,
> {
    match spec_position(constant_directive_names(directives), "semanticNonNull"@, 0) {
        Some(at) => Some(directives[at]),
        None => None,
    }
}

/// A copy of the first directive `@semanticNonNull` among `directives`.
pub fn semantic_non_null_of(directives: &Vec<ConstantDirective>) -> (found: Option<
    ConstantDirective,
>)
    ensures
        found.deep_view() == spec_semantic_non_null(directives.deep_view()),
{
    let ghost views = directives.deep_view();
    let mut i: usize = 0;
    while i < directives.len()
        invariant
            i <= directives.len(),
            views == directives.deep_view(),
            spec_position(constant_directive_names(views), "semanticNonNull"@, 0) == spec_position(
                constant_directive_names(views),
                "semanticNonNull"@,
                i as int,
            ),
        decreases directives.len() - i,
    {
        if texts_equal(directives[i].name.value.as_str(), "semanticNonNull") {
            return Some(directives[i].duplicate());
        }
        i += 1;
    }
    None
}

/// The value of a field, if there is a field.
pub open spec fn value_of(field: Option<PopulatedIrField>) -> Option<LocatedString> {
    match field {
        Some(field) => Some(field.value),
        None => None,
    }
}

/// The description of a docblock as the description of a field.
pub open spec fn description_view(description: Option<LocatedString>) -> Option<StringNodeView> {
    match description {
        Some(description) => Some(
            StringNodeView { span: description.location.span, value: description.item@ },
        ),
        None => None,
    }
}

/// `ir` is the terse resolver that the inputs declare: the field is that
/// of the value, with the docblock's description; the parent type is the
/// name before the period, at its place in the value; root and return
/// fragment are the values of their fields; the fragment's arguments are
/// those that the root fragment defines; the directive `@semanticNonNull`
/// of the field is kept as written; the rest is handed through.
pub open spec fn is_terse_resolver(
    ir: TerseRelayResolverIr,
    fields: Map<AllowedFieldName, IrField>,
    description: Option<LocatedString>,
    relay_resolver_field: PopulatedIrField,
    definitions: Seq<ExecutableDefinition>,
    location: Location,
    source_hash: ResolverSourceHash,
) -> bool {
    let value = relay_resolver_field.value;
    match (
        spec_terse_field(value),
        spec_optional_populated(fields, AllowedFieldName::RootFragmentField),
        spec_optional_populated(fields, AllowedFieldName::ReturnFragmentField),
    ) {
        (Ok((parent, field)), Ok(root_fragment), Ok(return_fragment)) => {
            &&& ir.field.deep_view() == (FieldDefinitionView {
                description: description_view(description),
                ..field
            })
            &&& ir.type_.location == (Location {
                source_location: value.location.source_location,
                span: parent.span,
            })
            &&& ir.type_.item@ == parent.value
            &&& ir.root_fragment == value_of(root_fragment)
            &&& ir.return_fragment == value_of(return_fragment)
            &&& ir.deprecated == field_of(fields, AllowedFieldName::DeprecatedField)
            &&& ir.semantic_non_null.deep_view() == spec_semantic_non_null(field.directives)
            &&& spec_optional_unpopulated(fields, AllowedFieldName::LiveField) == Ok::<
                _,
                DiagnosticView,
            >(ir.live)
            &&& ir.location == location
            &&& match spec_parse_fragment_definition(
                root_fragment,
                value.location.source_location,
                field.arguments,
                definitions,
            ) {
                Ok((_, arguments)) => ir.fragment_arguments.deep_view() == arguments,
                Err(_) => false,
            }
            &&& ir.source_hash == source_hash
            &&& !ir.type_confirmed
            &&& ir.property_lookup_name is None
        },
        _ => false,
    }
}

/// Builds a terse resolver from the value of the resolver tag and claims
/// the fields `@rootFragment`, `@returnFragment`, `@deprecated` and
/// `@live`.
pub fn parse_terse_relay_resolver_ir(
    fields: &mut FieldMap,
    description: Option<LocatedString>,
    relay_resolver_field: PopulatedIrField,
    definitions_in_file: Option<&Vec<ExecutableDefinition>>,
    location: Location,
    source_hash: ResolverSourceHash,
    parse_options: &ParseOptions<'_>,
) -> (result: DiagnosticsResult<TerseRelayResolverIr>)
    requires
        relay_resolver_field.spec_fits(),
        relay_resolver_field.value.item@.contains('.'),
        match spec_optional_populated(old(fields)@, AllowedFieldName::RootFragmentField) {
            Ok(root_fragment) => root_fragment_readable(
                root_fragment,
                definitions_of(definitions_in_file),
            ),
            Err(_) => true,
        },
    ensures
        final(fields)@ == spec_terse_fields_after(
            old(fields)@,
            relay_resolver_field,
            definitions_of(definitions_in_file),
            location,
            *parse_options,
        ),
        match result {
            Ok(ir) => spec_terse_failure(
                old(fields)@,
                relay_resolver_field,
                definitions_of(definitions_in_file),
                location,
                *parse_options,
            ) is None && is_terse_resolver(
                ir,
                old(fields)@,
                description,
                relay_resolver_field,
                definitions_of(definitions_in_file),
                location,
                source_hash,
            ),
            Err(diagnostics) => spec_terse_failure(
                old(fields)@,
                relay_resolver_field,
                definitions_of(definitions_in_file),
                location,
                *parse_options,
            ) == Some(diagnostics.deep_view()),
        },
{
    let root_fragment = match get_optional_populated_field_named(
        fields,
        AllowedFieldName::RootFragmentField,
    ) {
        Ok(field) => field,
        Err(diagnostic) => {
            return Err(one_diagnostic(diagnostic));
        },
    };
    let return_fragment = match get_optional_populated_field_named(
        fields,
        AllowedFieldName::ReturnFragmentField,
    ) {
        Ok(field) => field,
        Err(diagnostic) => {
            return Err(one_diagnostic(diagnostic));
        },
    };
    let value_location = relay_resolver_field.value.location;
    let (parent, parsed_field) = match parse_terse_field(&relay_resolver_field) {
        Ok(read) => read,
        Err(diagnostics) => {
            return Err(diagnostics);
        },
    };
    let mut field = parsed_field;
    match validate_field_type_annotation(&field, &relay_resolver_field.value, parse_options) {
        Err(diagnostics) => {
            return Err(diagnostics);
        },
        Ok(_) => {},
    }
    match validate_field_arguments(&field.arguments, location.source_location()) {
        Err(diagnostics) => {
            return Err(diagnostics);
        },
        Ok(_) => {},
    }
    let (fragment_type_condition, fragment_arguments) = match parse_fragment_definition(
        root_fragment.as_ref(),
        value_location.source_location(),
        &field.arguments,
        definitions_in_file,
    ) {
        Ok(read) => read,
        Err(diagnostics) => {
            return Err(diagnostics);
        },
    };
    match fragment_type_condition {
        Some(condition) => {
            if !texts_equal(condition.item.as_str(), parent.value.as_str()) {
                return Err(
                    one_diagnostic(
                        Diagnostic::ir(
                            IrParsingErrorMessages::MismatchRootFragmentTypeConditionTerseSyntax {
                                fragment_type_condition: condition.item,
                                parent_type: parent.value,
                            },
                            value_location.with_span(parent.span),
                        ).annotate("with fragment type condition", condition.location),
                    ),
                );
            }
        },
        None => {},
    }
    let semantic_non_null = semantic_non_null_of(&field.directives);
    field.description = match description {
        Some(description) => Some(
            StringNode { span: description.location.span(), value: description.item },
        ),
        None => None,
    };
    let deprecated = fields.remove(AllowedFieldName::DeprecatedField);
    let live = match get_optional_unpopulated_field_named(fields, AllowedFieldName::LiveField) {
        Ok(live) => live,
        Err(diagnostic) => {
            return Err(one_diagnostic(diagnostic));
        },
    };
    Ok(
        TerseRelayResolverIr {
            field,
            type_: LocatedString::new(value_location.with_span(parent.span), parent.value),
            root_fragment: match root_fragment {
                Some(root_fragment) => Some(root_fragment.value),
                None => None,
            },
            return_fragment: match return_fragment {
                Some(return_fragment) => Some(return_fragment.value),
                None => None,
            },
            location,
            deprecated,
            live,
            semantic_non_null,
            fragment_arguments,
            source_hash,
            type_confirmed: false,
            property_lookup_name: None,
        },
    )
}

} // verus!

verus! {

/// The three things a resolver docblock can declare.
#[derive(Clone, Copy, Debug, PartialEq, Eq, Structural)]
pub enum ResolverKind {
    StrongObject,
    WeakObject,
    TerseField,
}

/// What a docblock declares, by the value of its resolver tag: a field
/// where the value holds a period; else a type, weak where the docblock
/// has a field `@weak`, strong where it has none.
pub open spec fn spec_infer_kind(value: Seq<char>, has_weak_field: bool) -> ResolverKind {
    if value.contains('.') {
        ResolverKind::TerseField
    } else if has_weak_field {
        ResolverKind::WeakObject
    } else {
        ResolverKind::StrongObject
    }
}

/// Says what a docblock declares, by the value of its resolver tag.
pub fn infer_kind(value: &str, has_weak_field: bool) -> (kind: ResolverKind)
    ensures
        kind == spec_infer_kind(value@, has_weak_field),
{
    if text_contains(value, '.') {
        ResolverKind::TerseField
    } else if has_weak_field {
        ResolverKind::WeakObject
    } else {
        ResolverKind::StrongObject
    }
}

impl DocblockIr {
    /// Which of the three things the docblock declares.
    pub open spec fn spec_kind(&self) -> ResolverKind {
        match self {
            DocblockIr::Type(ResolverTypeDocblockIr::StrongObjectResolver(_)) =>
                ResolverKind::StrongObject,
            DocblockIr::Type(ResolverTypeDocblockIr::WeakObjectType(_)) => ResolverKind::WeakObject,
            DocblockIr::Field(ResolverFieldDocblockIr::TerseRelayResolver(_)) =>
                ResolverKind::TerseField,
        }
    }

    pub fn kind(&self) -> (kind: ResolverKind)
        ensures
            kind == self.spec_kind(),
    {
        match self {
            DocblockIr::Type(ResolverTypeDocblockIr::StrongObjectResolver(_)) =>
                ResolverKind::StrongObject,
            DocblockIr::Type(ResolverTypeDocblockIr::WeakObjectType(_)) => ResolverKind::WeakObject,
            DocblockIr::Field(ResolverFieldDocblockIr::TerseRelayResolver(_)) =>
                ResolverKind::TerseField,
        }
    }
}

/// The error for a resolver tag without a value: the legacy tag is turned
/// away as such, the others lack their data.
pub open spec fn spec_missing_value(used_tag: UsedTag, key_location: Location) -> DiagnosticView {
    DiagnosticView::ir(
        match used_tag {
            UsedTag::RelayResolver => IrParsingErrorMessagesView::LegacyVerboseSyntaxDeprecated,
            UsedTag::RelayType => IrParsingErrorMessagesView::FieldWithMissingData {
                field_name: AllowedFieldName::RelayTypeField,
            },
            UsedTag::RelayField => IrParsingErrorMessagesView::FieldWithMissingData {
                field_name: AllowedFieldName::RelayFieldField,
            },
        },
        key_location,
    )
}

/// What is checked once a resolver is built: that no field is left over,
/// and then that the tag fits what was built. `primary_name` is the name
/// of the type or field that was built.
pub open spec fn spec_after_build(
    fields_after: Map<AllowedFieldName, IrField>,
    tag_location: Location,
    used_tag: UsedTag,
    kind: ResolverKind,
    primary_name: Seq<char>,
    parse_options: ParseOptions,
) -> Option<Seq<DiagnosticView>> {
    if fields_after != Map::<AllowedFieldName, IrField>::empty() {
        Some(
            seq![
                leftover_fields_diagnostic(
                    fields_after,
                    tag_location,
                    match kind {
                        ResolverKind::StrongObject => "StrongObjectResolver"@,
                        ResolverKind::WeakObject => "WeakObjectType"@,
                        ResolverKind::TerseField => "TerseRelayResolver"@,
                    },
                ),
            ],
        )
    } else {
        match spec_tag_validity(
            used_tag,
            kind != ResolverKind::TerseField,
            parse_options.allow_legacy_relay_resolver_tag.spec_is_enabled_for(primary_name),
        ) {
            Some(message) => Some(seq![DiagnosticView::with_data(message, tag_location)]),
            None => None,
        }
    }
}

/// Why the docblock with the populated resolver tag `field` resolves to
/// nothing: the builder of its kind fails, fields are left over, or the
/// tag does not fit. `rest` holds the fields without the resolver tags.
pub open spec fn spec_populated_failure(
    used_tag: UsedTag,
    field: PopulatedIrField,
    rest: Map<AllowedFieldName, IrField>,
    definitions: Seq<ExecutableDefinition>,
    parse_options: ParseOptions,
    docblock_location: Location,
) -> Option<Seq<DiagnosticView>> {
    let kind = spec_infer_kind(field.value.item@, rest.contains_key(AllowedFieldName::WeakField));
    let claimed = rest.remove(AllowedFieldName::WeakField);
    match kind {
        ResolverKind::TerseField => match spec_terse_failure(
            rest,
            field,
            definitions,
            docblock_location,
            parse_options,
        ) {
            Some(diagnostics) => Some(diagnostics),
            None => spec_after_build(
                spec_terse_fields_after(rest, field, definitions, docblock_location, parse_options),
                field.key_location,
                used_tag,
                kind,
                spec_terse_field(field.value)->Ok_0.1.name.value,
                parse_options,
            ),
        },
        ResolverKind::WeakObject => match spec_optional_unpopulated(
            rest,
            AllowedFieldName::WeakField,
        ) {
            Err(diagnostic) => Some(seq![diagnostic]),
            Ok(_) => match spec_weak_object_failure(field.value, parse_options) {
                Some(diagnostics) => Some(diagnostics),
                None => spec_after_build(
                    spec_weak_object_fields_after(claimed, field.value, parse_options),
                    field.key_location,
                    used_tag,
                    kind,
                    spec_weak_declaration(field.value, parse_options)->Ok_0.0.value,
                    parse_options,
                ),
            },
        },
        ResolverKind::StrongObject => match spec_strong_object_failure(claimed, field.value) {
            Some(diagnostics) => Some(diagnostics),
            None => spec_after_build(
                spec_strong_object_fields_after(claimed, field.value),
                field.key_location,
                used_tag,
                kind,
                spec_type_declaration(field.value)->Ok_0.0.value,
                parse_options,
            ),
        },
    }
}

/// Why a docblock resolves to nothing though it has a resolver tag: the
/// diagnostics, or nothing where it resolves or has no resolver tag.
pub open spec fn spec_docblock_failure(
    fields: Map<AllowedFieldName, IrField>,
    definitions: Seq<ExecutableDefinition>,
    parse_options: ParseOptions,
    docblock_location: Location,
) -> Option<Seq<DiagnosticView>> {
    match spec_resolve_tag(fields) {
        Err(diagnostic) => Some(seq![diagnostic]),
        Ok(None) => None,
        Ok(Some((used_tag, IrField::UnpopulatedIrField(field)))) => Some(
            seq![spec_missing_value(used_tag, field.key_location)],
        ),
        Ok(Some((used_tag, IrField::PopulatedIrField(field)))) => spec_populated_failure(
            used_tag,
            field,
            without_resolver_tags(fields),
            definitions,
            parse_options,
            docblock_location,
        ),
    }
}

/// `ir` is what the docblock declares: of the kind that the value of the
/// resolver tag calls for, and built as the builder of that kind builds.
pub open spec fn is_docblock_ir(
    ir: DocblockIr,
    project_name: ProjectName,
    representation: UntypedDocblockRepresentation,
    definitions: Seq<ExecutableDefinition>,
    parse_options: ParseOptions,
    docblock_location: Location,
) -> bool {
    let rest = without_resolver_tags(representation.fields@);
    let claimed = rest.remove(AllowedFieldName::WeakField);
    match spec_resolve_tag(representation.fields@) {
        Ok(Some((_, IrField::PopulatedIrField(field)))) => {
            &&& ir.spec_kind() == spec_infer_kind(
                field.value.item@,
                rest.contains_key(AllowedFieldName::WeakField),
            )
            &&& match ir {
                DocblockIr::Field(ResolverFieldDocblockIr::TerseRelayResolver(terse)) =>
                    is_terse_resolver(
                        terse,
                        rest,
                        representation.description,
                        field,
                        definitions,
                        docblock_location,
                        representation.source_hash,
                    ),
                DocblockIr::Type(ResolverTypeDocblockIr::WeakObjectType(weak)) => is_weak_object(
                    weak,
                    claimed,
                    representation.description,
                    None,
                    docblock_location,
                    field,
                    representation.source_hash,
                    parse_options,
                ),
                DocblockIr::Type(ResolverTypeDocblockIr::StrongObjectResolver(strong)) =>
                    is_strong_object(
                        strong,
                        project_name,
                        claimed,
                        representation.description,
                        docblock_location,
                        field,
                        representation.source_hash,
                    ),
            }
        },
        _ => false,
    }
}

/// The docblock can be resolved without leaving the limits of spans: the
/// value of its resolver tag ends at an offset that a span can hold, and
/// where the value declares a field, the root fragment it names can be
/// read.
pub open spec fn docblock_readable(
    fields: Map<AllowedFieldName, IrField>,
    definitions: Seq<ExecutableDefinition>,
) -> bool {
    match spec_resolve_tag(fields) {
        Ok(Some((_, IrField::PopulatedIrField(field)))) => field.spec_fits() && (
        field.value.item@.contains('.') ==> match spec_optional_populated(
            without_resolver_tags(fields),
            AllowedFieldName::RootFragmentField,
        ) {
            Ok(root_fragment) => root_fragment_readable(root_fragment, definitions),
            Err(_) => true,
        }),
        _ => true,
    }
}

/// Resolves the fields of a docblock to what the docblock declares.
///
/// Returns nothing for a docblock without resolver tag; the resolver for
/// a docblock with one resolver tag whose value can be built, leaves no
/// field over, and fits the tag; and the diagnostics in every other case.
pub fn parse_docblock_ir(
    project_name: &ProjectName,
    untyped_representation: UntypedDocblockRepresentation,
    definitions_in_file: Option<&Vec<ExecutableDefinition>>,
    parse_options: &ParseOptions<'_>,
    docblock_location: Location,
) -> (result: DiagnosticsResult<Option<DocblockIr>>)
    requires
        docblock_readable(untyped_representation.fields@, definitions_of(definitions_in_file)),
    ensures
        resolver_tag_count(untyped_representation.fields@) == 0 ==> result == Ok::<
            Option<DocblockIr>,
            Vec<Diagnostic>,
        >(None),
        resolver_tag_count(untyped_representation.fields@) >= 2 ==> match result {
            Err(diagnostics) => diagnostics.deep_view() == seq![
                DiagnosticView::ir(
                    IrParsingErrorMessagesView::MultipleResolverTags,
                    untyped_representation.fields@[first_resolver_tag(
                        untyped_representation.fields@,
                    ).spec_field_name()].spec_key_location(),
                ),
            ],
            Ok(_) => false,
        },
        match result {
            Ok(None) => resolver_tag_count(untyped_representation.fields@) == 0,
            Ok(Some(ir)) => resolver_tag_count(untyped_representation.fields@) == 1
                && spec_docblock_failure(
                untyped_representation.fields@,
                definitions_of(definitions_in_file),
                *parse_options,
                docblock_location,
            ) is None && is_docblock_ir(
                ir,
                *project_name,
                untyped_representation,
                definitions_of(definitions_in_file),
                *parse_options,
                docblock_location,
            ),
            Err(diagnostics) => resolver_tag_count(untyped_representation.fields@) > 0
                && spec_docblock_failure(
                untyped_representation.fields@,
                definitions_of(definitions_in_file),
                *parse_options,
                docblock_location,
            ) == Some(diagnostics.deep_view()),
        },
{
    let ghost representation = untyped_representation;
    let UntypedDocblockRepresentation { description, fields, source_hash } =
        untyped_representation;
    let mut fields = fields;
    let (used_tag, resolver_field) = match resolve_tag(&mut fields) {
        Err(diagnostic) => {
            return Err(one_diagnostic(diagnostic));
        },
        Ok(None) => {
            return Ok(None);
        },
        Ok(Some(found)) => found,
    };
    let tag_location = resolver_field.key_location();
    let populated_ir_field = match resolver_field {
        IrField::UnpopulatedIrField(unpopulated_ir_field) => {
            let message = match used_tag {
                UsedTag::RelayResolver => IrParsingErrorMessages::LegacyVerboseSyntaxDeprecated,
                UsedTag::RelayType => IrParsingErrorMessages::FieldWithMissingData {
                    field_name: AllowedFieldName::RelayTypeField,
                },
                UsedTag::RelayField => IrParsingErrorMessages::FieldWithMissingData {
                    field_name: AllowedFieldName::RelayFieldField,
                },
            };
            return Err(
                one_diagnostic(Diagnostic::ir(message, unpopulated_ir_field.key_location)),
            );
        },
        IrField::PopulatedIrField(populated_ir_field) => populated_ir_field,
    };
    let kind = infer_kind(
        populated_ir_field.value.item.as_str(),
        fields.contains_key(AllowedFieldName::WeakField),
    );
    let parsed_docblock_ir = match kind {
        ResolverKind::TerseField => {
            match parse_terse_relay_resolver_ir(
                &mut fields,
                description,
                populated_ir_field,
                definitions_in_file,
                docblock_location,
                source_hash,
                parse_options,
            ) {
                Ok(ir) => DocblockIr::Field(ResolverFieldDocblockIr::TerseRelayResolver(ir)),
                Err(diagnostics) => {
                    return Err(diagnostics);
                },
            }
        },
        _ => {
            match get_optional_unpopulated_field_named(&mut fields, AllowedFieldName::WeakField) {
                Err(diagnostic) => {
                    return Err(one_diagnostic(diagnostic));
                },
                Ok(Some(weak_field)) => {
                    match parse_weak_object_ir(
                        &mut fields,
                        description,
                        None,
                        docblock_location,
                        populated_ir_field,
                        weak_field,
                        source_hash,
                        parse_options,
                    ) {
                        Ok(ir) => DocblockIr::Type(ResolverTypeDocblockIr::WeakObjectType(ir)),
                        Err(diagnostics) => {
                            return Err(diagnostics);
                        },
                    }
                },
                Ok(None) => {
                    match parse_strong_object_ir(
                        project_name,
                        &mut fields,
                        description,
                        docblock_location,
                        populated_ir_field,
                        source_hash,
                    ) {
                        Ok(ir) => DocblockIr::Type(
                            ResolverTypeDocblockIr::StrongObjectResolver(ir),
                        ),
                        Err(diagnostics) => {
                            return Err(diagnostics);
                        },
                    }
                },
            }
        },
    };
    match assert_all_fields_removed(fields, tag_location, parsed_docblock_ir.get_variant_name()) {
        Err(diagnostic) => {
            return Err(one_diagnostic(diagnostic));
        },
        Ok(_) => {},
    }
    match check_resolver_tag_validity(used_tag, &parsed_docblock_ir, parse_options, tag_location) {
        Err(diagnostics) => {
            return Err(diagnostics);
        },
        Ok(_) => {},
    }
    Ok(Some(parsed_docblock_ir))
}

} // verus!

verus! {

/// Whether the definition of a fragment argument can be read.
pub fn is_argument_definition_well_formed(argument: &FragmentArgument) -> (well_formed: bool)
    ensures
        well_formed == argument_definition_well_formed(*argument),
{
    match &argument.value {
        Value::Constant(ConstantValue::Object { fields, .. }) => {
            if find_field(fields, "provider").is_some() {
                return true;
            }
            match find_field(fields, "type") {
                Some(field) => match &field.value {
                    ConstantValue::String(node) => crate::source::text_fits(
                        node.value.as_str(),
                        0,
                    ),
                    _ => false,
                },
                None => false,
            }
        },
        _ => false,
    }
}

impl FragmentDefinition {
    /// Whether every argument that the fragment defines can be read.
    #[verifier::loop_isolation(false)]
    pub fn argument_definitions_well_formed(&self) -> (well_formed: bool)
        ensures
            well_formed == self.spec_argument_definitions_well_formed(),
    {
        let directive = match find_directive(&self.directives, "argumentDefinitions") {
            Some(directive) => directive,
            None => {
                return true;
            },
        };
        let arguments = match &directive.arguments {
            Some(arguments) => arguments,
            None => {
                return true;
            },
        };
        let mut i: usize = 0;
        while i < arguments.items.len()
            invariant
                i <= arguments.items.len(),
                forall|j: int|
                    0 <= j < i ==> argument_definition_well_formed(#[trigger] arguments.items@[j]),
            decreases arguments.items.len() - i,
        {
            if !is_argument_definition_well_formed(&arguments.items[i]) {
                proof {
                    let defined = argument_definitions(*self)->0;
                    assert(defined == arguments.items@);
                    assert(!argument_definition_well_formed(defined[i as int]));
                }
                return false;
            }
            i += 1;
        }
        true
    }
}

/// Whether `parse_docblock_ir` may be called on the docblock: see
/// `docblock_readable`.
pub fn is_docblock_readable(
    untyped_representation: &UntypedDocblockRepresentation,
    definitions_in_file: Option<&Vec<ExecutableDefinition>>,
) -> (readable: bool)
    ensures
        readable == docblock_readable(
            untyped_representation.fields@,
            definitions_of(definitions_in_file),
        ),
{
    let fields = &untyped_representation.fields;
    let relay_resolver_field = fields.get(AllowedFieldName::RelayResolverField);
    let relay_type_field = fields.get(AllowedFieldName::RelayTypeField);
    let relay_field_field = fields.get(AllowedFieldName::RelayFieldField);
    let resolver_field = match (relay_resolver_field, relay_type_field, relay_field_field) {
        (Some(field), None, None) => field,
        (None, Some(field), None) => field,
        (None, None, Some(field)) => field,
        _ => {
            return true;
        },
    };
    let populated = match resolver_field {
        IrField::PopulatedIrField(populated) => populated,
        IrField::UnpopulatedIrField(_) => {
            return true;
        },
    };
    if !populated.fits() {
        return false;
    }
    if !text_contains(populated.value.item.as_str(), '.') {
        return true;
    }
    let root_fragment = match fields.get(AllowedFieldName::RootFragmentField) {
        Some(IrField::PopulatedIrField(root_fragment)) => root_fragment,
        _ => {
            return true;
        },
    };
    proof {
        lemma_find_fragment(definitions_of(definitions_in_file), root_fragment.value.item@, 0);
    }
    match assert_fragment_definition(
        &root_fragment.value,
        root_fragment.value.item.as_str(),
        definitions_in_file,
    ) {
        Ok(fragment) => fragment.argument_definitions_well_formed(),
        Err(_) => true,
    }
}

} // verus!

verus! {

/// Resolves the fields of a docblock where the docblock can be read, and
/// returns nothing where it cannot: where `docblock_readable` does not
/// hold of it.
pub fn try_parse_docblock_ir(
    project_name: &ProjectName,
    untyped_representation: UntypedDocblockRepresentation,
    definitions_in_file: Option<&Vec<ExecutableDefinition>>,
    parse_options: &ParseOptions<'_>,
    docblock_location: Location,
) -> (result: Option<DiagnosticsResult<Option<DocblockIr>>>)
    ensures
        result is Some <==> docblock_readable(
            untyped_representation.fields@,
            definitions_of(definitions_in_file),
        ),
        match result {
            Some(Ok(None)) => resolver_tag_count(untyped_representation.fields@) == 0,
            Some(Ok(Some(ir))) => resolver_tag_count(untyped_representation.fields@) == 1
                && spec_docblock_failure(
                untyped_representation.fields@,
                definitions_of(definitions_in_file),
                *parse_options,
                docblock_location,
            ) is None && is_docblock_ir(
                ir,
                *project_name,
                untyped_representation,
                definitions_of(definitions_in_file),
                *parse_options,
                docblock_location,
            ),
            Some(Err(diagnostics)) => resolver_tag_count(untyped_representation.fields@) > 0
                && spec_docblock_failure(
                untyped_representation.fields@,
                definitions_of(definitions_in_file),
                *parse_options,
                docblock_location,
            ) == Some(diagnostics.deep_view()),
            None => true,
        },
{
    if is_docblock_readable(&untyped_representation, definitions_in_file) {
        Some(
            parse_docblock_ir(
                project_name,
                untyped_representation,
                definitions_in_file,
                parse_options,
                docblock_location,
            ),
        )
    } else {
        None
    }
}

} // verus!
