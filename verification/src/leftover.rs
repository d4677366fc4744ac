//! The fields that no builder claimed: their names in one sentence, their
//! places in order.

use vstd::prelude::*;
use vstd::string::StringExecFns;
use crate::errors::{Diagnostic, DiagnosticView, IrParsingErrorMessages, IrParsingErrorMessagesView};
use crate::location::Location;
use crate::untyped_representation::{AllowedFieldName, FieldMap, IrField, FIELD_NAME_COUNT};

verus! {

/// The tags that `fields` holds among the first `upto` tags of the
/// alphabetical order, in that order.
pub open spec fn present_names(fields: Map<AllowedFieldName, IrField>, upto: int) -> Seq<
    AllowedFieldName,
>
    decreases upto,
{
    if upto <= 0 {
        Seq::empty()
    } else {
        let name = AllowedFieldName::spec_from_index(upto - 1);
        if fields.contains_key(name) {
            present_names(fields, upto - 1).push(name)
        } else {
            present_names(fields, upto - 1)
        }
    }
}

/// The first `count` of `names` as a sentence: every name behind an `@`
/// and followed by a comma, the last of all names behind `and @`.
pub open spec fn spec_name_list(names: Seq<AllowedFieldName>, count: int) -> Seq<char>
    decreases count,
{
    if count <= 0 {
        Seq::empty()
    } else if count == names.len() {
        spec_name_list(names, count - 1) + "and @"@ + names[count - 1].spec_name()
    } else {
        spec_name_list(names, count - 1) + "@"@ + names[count - 1].spec_name() + ", "@
    }
}

/// The names of `names` in one sentence: a single name as `@name`, more as
/// `@a, @b, and @c`.
pub open spec fn spec_format_names(names: Seq<AllowedFieldName>) -> Seq<char> {
    if names.len() == 1 {
        "@"@ + names[0].spec_name()
    } else {
        spec_name_list(names, names.len() as int)
    }
}

/// The tags that `fields` holds, alphabetically, in one sentence.
pub open spec fn spec_format_remaining_fields(fields: Map<AllowedFieldName, IrField>) -> Seq<
    char,
> {
    spec_format_names(present_names(fields, FIELD_NAME_COUNT as int))
}

/// The tags that `fields` holds, in alphabetical order.
pub fn remaining_names(fields: &FieldMap) -> (names: Vec<AllowedFieldName>)
    ensures
        names@ == present_names(fields@, FIELD_NAME_COUNT as int),
{
    let mut names: Vec<AllowedFieldName> = Vec::new();
    let mut i: usize = 0;
    while i < FIELD_NAME_COUNT
        invariant
            i <= FIELD_NAME_COUNT,
            names@ == present_names(fields@, i as int),
        decreases FIELD_NAME_COUNT - i,
    {
        let name = AllowedFieldName::from_index(i);
        if fields.contains_key(name) {
            names.push(name);
        }
        i += 1;
    }
    names
}

/// The tags that `fields` holds, alphabetically, in one sentence.
pub fn format_remaining_fields(fields: &FieldMap) -> (text: String)
    ensures
        text@ == spec_format_remaining_fields(fields@),
{
    let names = remaining_names(fields);
    let len = names.len();
    if len == 1 {
        return String::from_str("@").concat(names[0].name());
    }
    let mut text = String::new();
    let mut i: usize = 0;
    while i < len
        invariant
            i <= len,
            len == names.len(),
            len != 1,
            text@ == spec_name_list(names@, i as int),
        decreases len - i,
    {
        if i == len - 1 {
            text.append("and @");
            text.append(names[i].name());
        } else {
            text.append("@");
            text.append(names[i].name());
            text.append(", ");
        }
        i += 1;
    }
    text
}

/// The places of the tags that `fields` holds among the first `upto` tags
/// of the alphabetical order.
pub open spec fn present_locations(fields: Map<AllowedFieldName, IrField>, upto: int) -> Seq<
    Location,
>
    decreases upto,
{
    if upto <= 0 {
        Seq::empty()
    } else {
        let name = AllowedFieldName::spec_from_index(upto - 1);
        if fields.contains_key(name) {
            present_locations(fields, upto - 1).push(fields[name].spec_key_location())
        } else {
            present_locations(fields, upto - 1)
        }
    }
}

/// `sorted` with `item` put behind the last location that does not come
/// after it.
pub open spec fn insert_location(sorted: Seq<Location>, item: Location) -> Seq<Location>
    decreases sorted.len(),
{
    if sorted.len() == 0 {
        seq![item]
    } else if sorted.last().spec_le(item) {
        sorted.push(item)
    } else {
        insert_location(sorted.drop_last(), item).push(sorted.last())
    }
}

/// The locations of `locations` in ascending order.
pub open spec fn sort_locations(locations: Seq<Location>) -> Seq<Location>
    decreases locations.len(),
{
    if locations.len() == 0 {
        Seq::empty()
    } else {
        insert_location(sort_locations(locations.drop_last()), locations.last())
    }
}

/// Every location of the list precedes those after it.
pub open spec fn locations_ascend(locations: Seq<Location>) -> bool {
    forall|i: int, j: int| 0 <= i <= j < locations.len() ==> locations[i].spec_le(locations[j])
}

/// Putting a location into an ascending list leaves it ascending and adds
/// that location and no other.
pub proof fn lemma_insert_location(sorted: Seq<Location>, item: Location)
    requires
        locations_ascend(sorted),
    ensures
        locations_ascend(insert_location(sorted, item)),
        insert_location(sorted, item).to_multiset() == sorted.to_multiset().insert(item),
        insert_location(sorted, item).len() == sorted.len() + 1,
    decreases sorted.len(),
{
    broadcast use vstd::seq_lib::group_to_multiset_ensures;

    if sorted.len() == 0 {
        assert(sorted =~= Seq::<Location>::empty());
        assert(seq![item] =~= Seq::<Location>::empty().push(item));
    } else if sorted.last().spec_le(item) {
        let out = sorted.push(item);
        assert forall|i: int, j: int| 0 <= i <= j < out.len() implies out[i].spec_le(out[j]) by {
            if j == sorted.len() {
                if i < sorted.len() {
                    crate::location::law_location_order_is_transitive(
                        sorted[i],
                        sorted.last(),
                        item,
                    );
                }
            }
        }
    } else {
        let front = sorted.drop_last();
        assert forall|i: int, j: int| 0 <= i <= j < front.len() implies front[i].spec_le(
            front[j],
        ) by {
            assert(front[i] == sorted[i] && front[j] == sorted[j]);
        }
        lemma_insert_location(front, item);
        let inner = insert_location(front, item);
        let out = inner.push(sorted.last());
        crate::location::law_location_order_is_total(sorted.last(), item);
        assert forall|k: int| 0 <= k < inner.len() implies inner[k].spec_le(sorted.last()) by {
            assert(inner.to_multiset().count(inner[k]) > 0);
            if inner[k] != item {
                assert(front.to_multiset().count(inner[k]) > 0);
                assert(front.contains(inner[k]));
                let w = choose|w: int| 0 <= w < front.len() && front[w] == inner[k];
                assert(sorted[w] == inner[k]);
            }
        }
        assert forall|i: int, j: int| 0 <= i <= j < out.len() implies out[i].spec_le(out[j]) by {
            if j == inner.len() && i == inner.len() {
                crate::location::law_location_order_is_total(sorted.last(), sorted.last());
            }
        }
        assert(sorted =~= front.push(sorted.last()));
        assert(out.to_multiset() =~= sorted.to_multiset().insert(item));
    }
}

/// The sorted list ascends and holds each location as often as the list
/// it was made from.
pub proof fn law_sorted_locations(locations: Seq<Location>)
    ensures
        locations_ascend(sort_locations(locations)),
        sort_locations(locations).to_multiset() == locations.to_multiset(),
        sort_locations(locations).len() == locations.len(),
    decreases locations.len(),
{
    broadcast use vstd::seq_lib::group_to_multiset_ensures;

    if locations.len() == 0 {
        assert(locations =~= Seq::<Location>::empty());
    } else {
        law_sorted_locations(locations.drop_last());
        lemma_insert_location(sort_locations(locations.drop_last()), locations.last());
        assert(locations =~= locations.drop_last().push(locations.last()));
    }
}

/// Puts `item` into the ascending list `sorted`.
fn insert_sorted(sorted: &mut Vec<Location>, item: Location)
    ensures
        final(sorted)@ == insert_location(old(sorted)@, item),
{
    let ghost before = sorted@;
    let mut pos: usize = sorted.len();
    proof {
        assert(before.take(pos as int) =~= before);
        assert(before.skip(pos as int) =~= Seq::<Location>::empty());
        assert(insert_location(before, item) =~= insert_location(before.take(pos as int), item)
            + before.skip(pos as int));
    }
    while pos > 0 && !sorted[pos - 1].le(&item)
        invariant
            pos <= sorted.len(),
            sorted@ == before,
            insert_location(before, item) == insert_location(before.take(pos as int), item)
                + before.skip(pos as int),
        decreases pos,
    {
        proof {
            let part = before.take(pos as int);
            assert(part.last() == before[pos - 1]);
            assert(part.drop_last() =~= before.take(pos - 1));
            assert(insert_location(part, item) == insert_location(before.take(pos - 1), item).push(
                before[pos - 1],
            ));
            assert(insert_location(before.take(pos - 1), item).push(before[pos - 1]) + before.skip(
                pos as int,
            ) =~= insert_location(before.take(pos - 1), item) + before.skip(pos - 1));
        }
        pos -= 1;
    }
    proof {
        let part = before.take(pos as int);
        if pos == 0 {
            assert(part =~= Seq::<Location>::empty());
            assert(seq![item] + before.skip(0) =~= before.insert(0, item));
        } else {
            assert(part.last() == before[pos - 1]);
            assert(part.push(item) + before.skip(pos as int) =~= before.insert(pos as int, item));
        }
    }
    sorted.insert(pos, item);
}

/// The places of the tags that `fields` holds, in ascending order.
pub fn remaining_locations(fields: &FieldMap) -> (locations: Vec<Location>)
    ensures
        locations@ == sort_locations(present_locations(fields@, FIELD_NAME_COUNT as int)),
{
    let mut locations: Vec<Location> = Vec::new();
    let mut i: usize = 0;
    while i < FIELD_NAME_COUNT
        invariant
            i <= FIELD_NAME_COUNT,
            locations@ == sort_locations(present_locations(fields@, i as int)),
        decreases FIELD_NAME_COUNT - i,
    {
        let name = AllowedFieldName::from_index(i);
        match fields.get(name) {
            Some(field) => {
                proof {
                    let next = present_locations(fields@, i as int + 1);
                    assert(next.drop_last() =~= present_locations(fields@, i as int));
                }
                insert_sorted(&mut locations, field.key_location());
            },
            None => {},
        }
        i += 1;
    }
    locations
}

/// `diagnostic` with a note `Unexpected field` at each of the first
/// `count` of `locations`.
pub open spec fn annotate_unexpected(
    diagnostic: DiagnosticView,
    locations: Seq<Location>,
    count: int,
) -> DiagnosticView
    decreases count,
{
    if count <= 0 {
        diagnostic
    } else {
        annotate_unexpected(diagnostic, locations, count - 1).annotate(
            "Unexpected field"@,
            locations[count - 1],
        )
    }
}

/// The diagnostic for the fields that were left over: it names the kind
/// of resolver and the tags, alphabetically, and notes the place of each
/// tag, in ascending order of the places.
pub open spec fn leftover_fields_diagnostic(
    fields: Map<AllowedFieldName, IrField>,
    location: Location,
    resolver_type: Seq<char>,
) -> DiagnosticView {
    let places = sort_locations(present_locations(fields, FIELD_NAME_COUNT as int));
    annotate_unexpected(
        DiagnosticView::ir(
            IrParsingErrorMessagesView::LeftoverFields {
                resolver_type,
                field_string: spec_format_remaining_fields(fields),
            },
            location,
        ),
        places,
        places.len() as int,
    )
}

/// Accepts a map without fields; any field left in it is an error that
/// names all of them.
pub fn assert_all_fields_removed(
    fields: FieldMap,
    location: Location,
    resolver_type: &'static str,
) -> (result: Result<(), Diagnostic>)
    ensures
        match result {
            Ok(_) => fields@ == Map::<AllowedFieldName, IrField>::empty(),
            Err(diagnostic) => fields@ != Map::<AllowedFieldName, IrField>::empty()
                && diagnostic.deep_view() == leftover_fields_diagnostic(
                fields@,
                location,
                resolver_type@,
            ),
        },
{
    if fields.is_empty() {
        Ok(())
    } else {
        let field_string = format_remaining_fields(&fields);
        let mut err = Diagnostic::ir(
            IrParsingErrorMessages::LeftoverFields { resolver_type, field_string },
            location,
        );
        let places = remaining_locations(&fields);
        let ghost start = err.deep_view();
        let mut i: usize = 0;
        while i < places.len()
            invariant
                i <= places.len(),
                err.deep_view() == annotate_unexpected(start, places@, i as int),
            decreases places.len() - i,
        {
            err = err.annotate("Unexpected field", places[i]);
            i += 1;
        }
        Err(err)
    }
}

} // verus!
