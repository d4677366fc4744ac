//! What holds of the resolution of docblocks whatever the docblock is.

use vstd::prelude::*;
use crate::docblock_ir::{
    is_strong_object, resolver_tag_count, spec_docblock_failure, spec_infer_kind,
    spec_resolve_tag, spec_tag_validity, spec_type_declaration, ResolverKind, UsedTag,
};
use crate::errors::{DiagnosticView, IrParsingErrorMessagesView};
use crate::executable::ExecutableDefinition;
use crate::ir::{ProjectName, StrongObjectIr};
use crate::leftover::present_names;
use crate::location::{LocatedString, Location};
use crate::options::ParseOptions;
use crate::source::{lemma_text_order_transitive, text_order, Order};
use crate::untyped_representation::{
    AllowedFieldName, IrField, PopulatedIrField, ResolverSourceHash, FIELD_NAME_COUNT,
};

verus! {

/// A docblock without any of the three resolver tags declares nothing,
/// and that is no error.
pub proof fn law_no_resolver_tag_is_no_error(
    fields: Map<AllowedFieldName, IrField>,
    definitions: Seq<ExecutableDefinition>,
    parse_options: ParseOptions,
    docblock_location: Location,
)
    requires
        resolver_tag_count(fields) == 0,
    ensures
        spec_resolve_tag(fields) == Ok::<Option<(UsedTag, IrField)>, DiagnosticView>(None),
        spec_docblock_failure(fields, definitions, parse_options, docblock_location) is None,
{
}

/// A docblock with two or three of the resolver tags is an error,
/// whichever they are: the error of multiple resolver tags, at the first
/// of those present in the order `@RelayResolver`, `@relayType`,
/// `@relayField`.
pub proof fn law_multiple_resolver_tags_are_an_error(
    fields: Map<AllowedFieldName, IrField>,
    definitions: Seq<ExecutableDefinition>,
    parse_options: ParseOptions,
    docblock_location: Location,
)
    requires
        resolver_tag_count(fields) >= 2,
    ensures
        spec_docblock_failure(fields, definitions, parse_options, docblock_location) matches Some(
            diagnostics,
        ) && diagnostics.len() == 1 && diagnostics[0].message == crate::errors::DiagnosticMessageView::Ir(
            IrParsingErrorMessagesView::MultipleResolverTags,
        ) && diagnostics[0].location == (if fields.contains_key(
            AllowedFieldName::RelayResolverField,
        ) {
            fields[AllowedFieldName::RelayResolverField].spec_key_location()
        } else {
            fields[AllowedFieldName::RelayTypeField].spec_key_location()
        }),
{
}

/// A value with a period declares a field; a value without one declares
/// a type, a weak one exactly where the docblock has a field `@weak`.
pub proof fn law_kind_follows_the_period(value: Seq<char>, has_weak_field: bool)
    ensures
        value.contains('.') ==> spec_infer_kind(value, has_weak_field) == ResolverKind::TerseField,
        !value.contains('.') && has_weak_field ==> spec_infer_kind(value, has_weak_field)
            == ResolverKind::WeakObject,
        !value.contains('.') && !has_weak_field ==> spec_infer_kind(value, has_weak_field)
            == ResolverKind::StrongObject,
{
}

/// Two strong objects built for one project from values that declare one
/// type name have the same root fragment name, whatever else their
/// docblocks hold.
pub proof fn law_root_fragment_name_is_stable(
    first: StrongObjectIr,
    second: StrongObjectIr,
    project_name: ProjectName,
    first_fields: Map<AllowedFieldName, IrField>,
    second_fields: Map<AllowedFieldName, IrField>,
    first_description: Option<LocatedString>,
    second_description: Option<LocatedString>,
    first_location: Location,
    second_location: Location,
    first_field: PopulatedIrField,
    second_field: PopulatedIrField,
    first_hash: ResolverSourceHash,
    second_hash: ResolverSourceHash,
)
    requires
        is_strong_object(
            first,
            project_name,
            first_fields,
            first_description,
            first_location,
            first_field,
            first_hash,
        ),
        is_strong_object(
            second,
            project_name,
            second_fields,
            second_description,
            second_location,
            second_field,
            second_hash,
        ),
        spec_type_declaration(first_field.value)->Ok_0.0.value == spec_type_declaration(
            second_field.value,
        )->Ok_0.0.value,
    ensures
        first.root_fragment.item@ == second.root_fragment.item@,
        first.root_fragment.location == second.root_fragment.location,
{
}

/// The names that a leftover error lists are the tags of the fields that
/// were left, each once, in alphabetical order: a tag is listed if and
/// only if the map holds it.
pub proof fn law_leftover_names_are_the_fields_left(
    fields: Map<AllowedFieldName, IrField>,
    upto: int,
)
    requires
        0 <= upto <= FIELD_NAME_COUNT,
    ensures
        forall|name: AllowedFieldName|
            present_names(fields, upto).contains(name) <==> (fields.contains_key(name)
                && name.spec_index() < upto),
        forall|i: int, j: int|
            0 <= i < j < present_names(fields, upto).len() ==> present_names(
                fields,
                upto,
            )[i].spec_index() < present_names(fields, upto)[j].spec_index(),
        forall|i: int|
            0 <= i < present_names(fields, upto).len() ==> present_names(
                fields,
                upto,
            )[i].spec_index() < upto,
    decreases upto,
{
    if upto > 0 {
        law_leftover_names_are_the_fields_left(fields, upto - 1);
        let front = present_names(fields, upto - 1);
        let last = AllowedFieldName::spec_from_index(upto - 1);
        let names = present_names(fields, upto);
        assert(last.spec_index() == upto - 1);
        assert forall|name: AllowedFieldName|
            names.contains(name) <==> (fields.contains_key(name) && name.spec_index()
                < upto) by {
            crate::untyped_representation::lemma_index_round_trip(name);
            if fields.contains_key(last) {
                assert(names == front.push(last));
                if names.contains(name) {
                    let at = choose|at: int| 0 <= at < names.len() && names[at] == name;
                    if at < front.len() {
                        assert(front[at] == name);
                        assert(front.contains(name));
                    }
                }
                if fields.contains_key(name) && name.spec_index() < upto {
                    if name.spec_index() < upto - 1 {
                        assert(front.contains(name));
                        let at = choose|at: int| 0 <= at < front.len() && front[at] == name;
                        assert(names[at] == name);
                    } else {
                        assert(name == last);
                        assert(names[front.len() as int] == last);
                    }
                }
            } else {
                assert(names == front);
                if name.spec_index() == upto - 1 {
                    assert(name == last);
                }
            }
        }
    } else {
        assert(present_names(fields, upto) =~= Seq::<AllowedFieldName>::empty());
    }
}

/// Nothing is left over exactly where the map is empty: then no name is
/// listed.
pub proof fn law_nothing_left_lists_nothing(fields: Map<AllowedFieldName, IrField>)
    ensures
        fields == Map::<AllowedFieldName, IrField>::empty() <==> present_names(
            fields,
            FIELD_NAME_COUNT as int,
        ).len() == 0,
{
    law_leftover_names_are_the_fields_left(fields, FIELD_NAME_COUNT as int);
    let names = present_names(fields, FIELD_NAME_COUNT as int);
    if names.len() == 0 {
        assert forall|name: AllowedFieldName| !fields.contains_key(name) by {
            crate::untyped_representation::lemma_index_round_trip(name);
            if fields.contains_key(name) {
                assert(names.contains(name));
            }
        }
        assert(fields =~= Map::<AllowedFieldName, IrField>::empty());
    } else {
        assert(names.contains(names[0]));
        assert(fields.contains_key(names[0]));
    }
}

/// The table of tags and kinds: the legacy tag is accepted exactly where
/// it is still allowed for the name, `@relayType` exactly for a type, and
/// `@relayField` exactly for a field.
pub proof fn law_tag_validity_table(used_tag: UsedTag, is_type: bool, legacy_tag_allowed: bool)
    ensures
        spec_tag_validity(used_tag, is_type, legacy_tag_allowed) is None <==> match used_tag {
            UsedTag::RelayResolver => legacy_tag_allowed,
            UsedTag::RelayType => is_type,
            UsedTag::RelayField => !is_type,
        },
{
}

} // verus!

verus! {

/// Each tag name stands before the next in the order of dictionaries.
proof fn lemma_next_tag_name_is_later(index: int)
    requires
        0 <= index < FIELD_NAME_COUNT - 1,
    ensures
        text_order(
            AllowedFieldName::spec_from_index(index).spec_name(),
            AllowedFieldName::spec_from_index(index + 1).spec_name(),
        ) == Order::Before,
{
    reveal_strlit("RelayResolver");
    reveal_strlit("deprecated");
    reveal_strlit("edgeTo");
    reveal_strlit("fieldName");
    reveal_strlit("live");
    reveal_strlit("onInterface");
    reveal_strlit("onType");
    reveal_strlit("outputType");
    reveal_strlit("relayField");
    reveal_strlit("relayType");
    reveal_strlit("returnFragment");
    reveal_strlit("rootFragment");
    reveal_strlit("weak");
    let left = AllowedFieldName::spec_from_index(index).spec_name();
    let right = AllowedFieldName::spec_from_index(index + 1).spec_name();
    if index == 5 {
        lemma_common_start(left, right, 2);
    } else if index == 8 {
        lemma_common_start(left, right, 5);
    } else if index == 9 {
        lemma_common_start(left, right, 2);
    } else if index == 10 {
        lemma_common_start(left, right, 1);
    } else {
        lemma_common_start(left, right, 0);
    }
}

/// Two texts that agree in their first `count` characters stand as what
/// follows those characters stands.
proof fn lemma_common_start(left: Seq<char>, right: Seq<char>, count: int)
    requires
        0 <= count <= left.len(),
        count <= right.len(),
        forall|i: int| 0 <= i < count ==> left[i] == right[i],
    ensures
        text_order(left, right) == text_order(left.skip(count), right.skip(count)),
    decreases count,
{
    if count > 0 {
        lemma_common_start(left.skip(1), right.skip(1), count - 1);
        assert(left.skip(1).skip(count - 1) =~= left.skip(count));
        assert(right.skip(1).skip(count - 1) =~= right.skip(count));
    } else {
        assert(left.skip(0) =~= left);
        assert(right.skip(0) =~= right);
    }
}

/// The tags are numbered in the alphabetical order of their names: a tag
/// with a smaller index has a name that stands earlier in the order of
/// dictionaries. This is the order in which leftover fields are named.
pub proof fn law_tag_names_are_in_alphabetical_order(first: AllowedFieldName, second: AllowedFieldName)
    requires
        first.spec_index() < second.spec_index(),
    ensures
        text_order(first.spec_name(), second.spec_name()) == Order::Before,
    decreases second.spec_index() - first.spec_index(),
{
    crate::untyped_representation::lemma_index_round_trip(first);
    crate::untyped_representation::lemma_index_round_trip(second);
    let before = AllowedFieldName::spec_from_index(second.spec_index() - 1);
    lemma_next_tag_name_is_later(second.spec_index() - 1);
    if first.spec_index() + 1 < second.spec_index() {
        law_tag_names_are_in_alphabetical_order(first, before);
        lemma_text_order_transitive(first.spec_name(), before.spec_name(), second.spec_name());
    }
}

} // verus!
