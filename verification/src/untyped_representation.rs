//! The fields of a docblock after tokenizing: a closed set of tag names,
//! each present once at most, with or without a value.

use vstd::prelude::*;
use crate::location::{LocatedString, Location};

verus! {

/// The tags that a resolver docblock may hold, in the alphabetical order of
/// their names.
#[derive(Clone, Copy, Debug, PartialEq, Eq, PartialOrd, Ord, Hash, Structural)]
pub enum AllowedFieldName {
    RelayResolverField,
    DeprecatedField,
    EdgeToField,
    FieldNameField,
    LiveField,
    OnInterfaceField,
    OnTypeField,
    OutputTypeField,
    RelayFieldField,
    RelayTypeField,
    ReturnFragmentField,
    RootFragmentField,
    WeakField,
}

/// The number of tag names.
pub const FIELD_NAME_COUNT: usize = 13;

impl AllowedFieldName {
    /// The tag as written after `@`.
    pub open spec fn spec_name(self) -> Seq<char> {
        match self {
            AllowedFieldName::RelayResolverField => "RelayResolver"@,
            AllowedFieldName::DeprecatedField => "deprecated"@,
            AllowedFieldName::EdgeToField => "edgeTo"@,
            AllowedFieldName::FieldNameField => "fieldName"@,
            AllowedFieldName::LiveField => "live"@,
            AllowedFieldName::OnInterfaceField => "onInterface"@,
            AllowedFieldName::OnTypeField => "onType"@,
            AllowedFieldName::OutputTypeField => "outputType"@,
            AllowedFieldName::RelayFieldField => "relayField"@,
            AllowedFieldName::RelayTypeField => "relayType"@,
            AllowedFieldName::ReturnFragmentField => "returnFragment"@,
            AllowedFieldName::RootFragmentField => "rootFragment"@,
            AllowedFieldName::WeakField => "weak"@,
        }
    }

    /// The tag as written after `@`.
    pub fn name(self) -> (text: &'static str)
        ensures
            text@ == self.spec_name(),
    {
        match self {
            AllowedFieldName::RelayResolverField => "RelayResolver",
            AllowedFieldName::DeprecatedField => "deprecated",
            AllowedFieldName::EdgeToField => "edgeTo",
            AllowedFieldName::FieldNameField => "fieldName",
            AllowedFieldName::LiveField => "live",
            AllowedFieldName::OnInterfaceField => "onInterface",
            AllowedFieldName::OnTypeField => "onType",
            AllowedFieldName::OutputTypeField => "outputType",
            AllowedFieldName::RelayFieldField => "relayField",
            AllowedFieldName::RelayTypeField => "relayType",
            AllowedFieldName::ReturnFragmentField => "returnFragment",
            AllowedFieldName::RootFragmentField => "rootFragment",
            AllowedFieldName::WeakField => "weak",
        }
    }

    /// The place of the tag in the alphabetical order of tag names.
    pub open spec fn spec_index(self) -> int {
        match self {
            AllowedFieldName::RelayResolverField => 0,
            AllowedFieldName::DeprecatedField => 1,
            AllowedFieldName::EdgeToField => 2,
            AllowedFieldName::FieldNameField => 3,
            AllowedFieldName::LiveField => 4,
            AllowedFieldName::OnInterfaceField => 5,
            AllowedFieldName::OnTypeField => 6,
            AllowedFieldName::OutputTypeField => 7,
            AllowedFieldName::RelayFieldField => 8,
            AllowedFieldName::RelayTypeField => 9,
            AllowedFieldName::ReturnFragmentField => 10,
            AllowedFieldName::RootFragmentField => 11,
            AllowedFieldName::WeakField => 12,
        }
    }

    pub fn index(self) -> (index: usize)
        ensures
            index as int == self.spec_index(),
            index < FIELD_NAME_COUNT,
    {
        match self {
            AllowedFieldName::RelayResolverField => 0,
            AllowedFieldName::DeprecatedField => 1,
            AllowedFieldName::EdgeToField => 2,
            AllowedFieldName::FieldNameField => 3,
            AllowedFieldName::LiveField => 4,
            AllowedFieldName::OnInterfaceField => 5,
            AllowedFieldName::OnTypeField => 6,
            AllowedFieldName::OutputTypeField => 7,
            AllowedFieldName::RelayFieldField => 8,
            AllowedFieldName::RelayTypeField => 9,
            AllowedFieldName::ReturnFragmentField => 10,
            AllowedFieldName::RootFragmentField => 11,
            AllowedFieldName::WeakField => 12,
        }
    }

    /// The tag at place `index` of the alphabetical order.
    pub open spec fn spec_from_index(index: int) -> AllowedFieldName {
        if index == 0 {
            AllowedFieldName::RelayResolverField
        } else if index == 1 {
            AllowedFieldName::DeprecatedField
        } else if index == 2 {
            AllowedFieldName::EdgeToField
        } else if index == 3 {
            AllowedFieldName::FieldNameField
        } else if index == 4 {
            AllowedFieldName::LiveField
        } else if index == 5 {
            AllowedFieldName::OnInterfaceField
        } else if index == 6 {
            AllowedFieldName::OnTypeField
        } else if index == 7 {
            AllowedFieldName::OutputTypeField
        } else if index == 8 {
            AllowedFieldName::RelayFieldField
        } else if index == 9 {
            AllowedFieldName::RelayTypeField
        } else if index == 10 {
            AllowedFieldName::ReturnFragmentField
        } else if index == 11 {
            AllowedFieldName::RootFragmentField
        } else {
            AllowedFieldName::WeakField
        }
    }

    pub fn from_index(index: usize) -> (name: AllowedFieldName)
        requires
            index < FIELD_NAME_COUNT,
        ensures
            name == AllowedFieldName::spec_from_index(index as int),
            name.spec_index() == index,
    {
        if index == 0 {
            AllowedFieldName::RelayResolverField
        } else if index == 1 {
            AllowedFieldName::DeprecatedField
        } else if index == 2 {
            AllowedFieldName::EdgeToField
        } else if index == 3 {
            AllowedFieldName::FieldNameField
        } else if index == 4 {
            AllowedFieldName::LiveField
        } else if index == 5 {
            AllowedFieldName::OnInterfaceField
        } else if index == 6 {
            AllowedFieldName::OnTypeField
        } else if index == 7 {
            AllowedFieldName::OutputTypeField
        } else if index == 8 {
            AllowedFieldName::RelayFieldField
        } else if index == 9 {
            AllowedFieldName::RelayTypeField
        } else if index == 10 {
            AllowedFieldName::ReturnFragmentField
        } else if index == 11 {
            AllowedFieldName::RootFragmentField
        } else {
            AllowedFieldName::WeakField
        }
    }
}

/// Every tag stands at the place that its index names.
pub proof fn lemma_index_round_trip(name: AllowedFieldName)
    ensures
        0 <= name.spec_index() < FIELD_NAME_COUNT,
        AllowedFieldName::spec_from_index(name.spec_index()) == name,
{
}

/// A tag that was written without a value.
#[derive(Clone, Copy, Debug, PartialEq, Eq, Hash, Structural)]
pub struct UnpopulatedIrField {
    pub key_location: Location,
}

/// A tag that was written with a value. The key location is that of the
/// tag, the value's location that of the text after it.
#[derive(Clone, Debug, PartialEq, Eq)]
pub struct PopulatedIrField {
    pub key_location: Location,
    pub value: LocatedString,
}

/// A tag of a docblock, with or without a value.
#[derive(Clone, Debug, PartialEq, Eq)]
pub enum IrField {
    PopulatedIrField(PopulatedIrField),
    UnpopulatedIrField(UnpopulatedIrField),
}

impl IrField {
    /// A field from the tag's location and the value after it, if any.
    pub fn new(key_location: Location, value: Option<LocatedString>) -> (field: IrField)
        ensures
            field == match value {
                Some(value) => IrField::PopulatedIrField(PopulatedIrField { key_location, value }),
                None => IrField::UnpopulatedIrField(UnpopulatedIrField { key_location }),
            },
    {
        match value {
            Some(value) => IrField::PopulatedIrField(PopulatedIrField { key_location, value }),
            None => IrField::UnpopulatedIrField(UnpopulatedIrField { key_location }),
        }
    }

    /// Where the tag stands, whether it has a value or not.
    pub open spec fn spec_key_location(&self) -> Location {
        match self {
            IrField::PopulatedIrField(field) => field.key_location,
            IrField::UnpopulatedIrField(field) => field.key_location,
        }
    }

    #[verifier::when_used_as_spec(spec_key_location)]
    pub fn key_location(&self) -> (location: Location)
        ensures
            location == self.spec_key_location(),
    {
        match self {
            IrField::PopulatedIrField(field) => field.key_location,
            IrField::UnpopulatedIrField(field) => field.key_location,
        }
    }

    /// The field as one with a value; the field itself if it has none.
    pub fn try_into_populated(self) -> (result: Result<PopulatedIrField, IrField>)
        ensures
            result == match self {
                IrField::PopulatedIrField(field) => Ok::<_, IrField>(field),
                IrField::UnpopulatedIrField(_) => Err(self),
            },
    {
        match self {
            IrField::PopulatedIrField(field) => Ok(field),
            IrField::UnpopulatedIrField(field) => Err(IrField::UnpopulatedIrField(field)),
        }
    }

    /// The field as one without a value; the field itself if it has one.
    pub fn try_into_unpopulated(self) -> (result: Result<UnpopulatedIrField, IrField>)
        ensures
            result == match self {
                IrField::UnpopulatedIrField(field) => Ok::<_, IrField>(field),
                IrField::PopulatedIrField(_) => Err(self),
            },
    {
        match self {
            IrField::UnpopulatedIrField(field) => Ok(field),
            IrField::PopulatedIrField(field) => Err(IrField::PopulatedIrField(field)),
        }
    }
}

/// The fields of a docblock by tag name. A tag name is held once at most.
#[derive(Clone, Debug, PartialEq, Eq)]
pub struct FieldMap {
    relay_resolver: Option<IrField>,
    deprecated: Option<IrField>,
    edge_to: Option<IrField>,
    field_name: Option<IrField>,
    live: Option<IrField>,
    on_interface: Option<IrField>,
    on_type: Option<IrField>,
    output_type: Option<IrField>,
    relay_field: Option<IrField>,
    relay_type: Option<IrField>,
    return_fragment: Option<IrField>,
    root_fragment: Option<IrField>,
    weak: Option<IrField>,
}

impl FieldMap {
    pub closed spec fn slot(&self, name: AllowedFieldName) -> Option<IrField> {
        match name {
            AllowedFieldName::RelayResolverField => self.relay_resolver,
            AllowedFieldName::DeprecatedField => self.deprecated,
            AllowedFieldName::EdgeToField => self.edge_to,
            AllowedFieldName::FieldNameField => self.field_name,
            AllowedFieldName::LiveField => self.live,
            AllowedFieldName::OnInterfaceField => self.on_interface,
            AllowedFieldName::OnTypeField => self.on_type,
            AllowedFieldName::OutputTypeField => self.output_type,
            AllowedFieldName::RelayFieldField => self.relay_field,
            AllowedFieldName::RelayTypeField => self.relay_type,
            AllowedFieldName::ReturnFragmentField => self.return_fragment,
            AllowedFieldName::RootFragmentField => self.root_fragment,
            AllowedFieldName::WeakField => self.weak,
        }
    }
}

impl View for FieldMap {
    type V = Map<AllowedFieldName, IrField>;

    closed spec fn view(&self) -> Map<AllowedFieldName, IrField> {
        Map::new(
            |name: AllowedFieldName| self.slot(name) is Some,
            |name: AllowedFieldName| self.slot(name)->0,
        )
    }
}

impl FieldMap {
    /// A map without fields.
    pub fn new() -> (fields: FieldMap)
        ensures
            fields@ == Map::<AllowedFieldName, IrField>::empty(),
    {
        let fields = FieldMap {
            relay_resolver: None,
            deprecated: None,
            edge_to: None,
            field_name: None,
            live: None,
            on_interface: None,
            on_type: None,
            output_type: None,
            relay_field: None,
            relay_type: None,
            return_fragment: None,
            root_fragment: None,
            weak: None,
        };
        proof {
            assert(fields@ =~= Map::<AllowedFieldName, IrField>::empty());
        }
        fields
    }

    /// The field under `name`, if the map holds one.
    pub fn get(&self, name: AllowedFieldName) -> (field: Option<&IrField>)
        ensures
            field == if self@.contains_key(name) {
                Some(&self@[name])
            } else {
                None
            },
    {
        match name {
            AllowedFieldName::RelayResolverField => self.relay_resolver.as_ref(),
            AllowedFieldName::DeprecatedField => self.deprecated.as_ref(),
            AllowedFieldName::EdgeToField => self.edge_to.as_ref(),
            AllowedFieldName::FieldNameField => self.field_name.as_ref(),
            AllowedFieldName::LiveField => self.live.as_ref(),
            AllowedFieldName::OnInterfaceField => self.on_interface.as_ref(),
            AllowedFieldName::OnTypeField => self.on_type.as_ref(),
            AllowedFieldName::OutputTypeField => self.output_type.as_ref(),
            AllowedFieldName::RelayFieldField => self.relay_field.as_ref(),
            AllowedFieldName::RelayTypeField => self.relay_type.as_ref(),
            AllowedFieldName::ReturnFragmentField => self.return_fragment.as_ref(),
            AllowedFieldName::RootFragmentField => self.root_fragment.as_ref(),
            AllowedFieldName::WeakField => self.weak.as_ref(),
        }
    }

    /// Whether the map holds a field under `name`.
    pub fn contains_key(&self, name: AllowedFieldName) -> (held: bool)
        ensures
            held == self@.contains_key(name),
    {
        self.get(name).is_some()
    }

    /// Puts `field` under `name` and returns the field that was there.
    pub fn insert(&mut self, name: AllowedFieldName, field: IrField) -> (previous: Option<IrField>)
        ensures
            final(self)@ == old(self)@.insert(name, field),
            previous == if old(self)@.contains_key(name) {
                Some(old(self)@[name])
            } else {
                None
            },
    {
        let previous = self.remove(name);
        let ghost emptied = *self;
        match name {
            AllowedFieldName::RelayResolverField => {
                self.relay_resolver = Some(field);
            },
            AllowedFieldName::DeprecatedField => {
                self.deprecated = Some(field);
            },
            AllowedFieldName::EdgeToField => {
                self.edge_to = Some(field);
            },
            AllowedFieldName::FieldNameField => {
                self.field_name = Some(field);
            },
            AllowedFieldName::LiveField => {
                self.live = Some(field);
            },
            AllowedFieldName::OnInterfaceField => {
                self.on_interface = Some(field);
            },
            AllowedFieldName::OnTypeField => {
                self.on_type = Some(field);
            },
            AllowedFieldName::OutputTypeField => {
                self.output_type = Some(field);
            },
            AllowedFieldName::RelayFieldField => {
                self.relay_field = Some(field);
            },
            AllowedFieldName::RelayTypeField => {
                self.relay_type = Some(field);
            },
            AllowedFieldName::ReturnFragmentField => {
                self.return_fragment = Some(field);
            },
            AllowedFieldName::RootFragmentField => {
                self.root_fragment = Some(field);
            },
            AllowedFieldName::WeakField => {
                self.weak = Some(field);
            },
        }
        proof {
            let target = old(self)@.insert(name, field);
            assert forall|other: AllowedFieldName|
                #![trigger self@.dom().contains(other)]
                #![trigger target.dom().contains(other)]
                #![trigger self@[other]]
                #![trigger target[other]]
                self@.dom().contains(other) == target.dom().contains(other) && (
                self@.dom().contains(other) ==> self@[other] == target[other]) by {
                if other != name {
                    assert(self.slot(other) == emptied.slot(other));
                    assert(emptied@.contains_key(other) == old(self)@.contains_key(other));
                    assert(emptied@.contains_key(other) ==> emptied@[other] == old(self)@[other]);
                }
            }
            assert(self@ =~= target);
        }
        previous
    }

    /// Takes the field under `name` out of the map, if it holds one.
    pub fn remove(&mut self, name: AllowedFieldName) -> (removed: Option<IrField>)
        ensures
            final(self)@ == old(self)@.remove(name),
            removed == if old(self)@.contains_key(name) {
                Some(old(self)@[name])
            } else {
                None
            },
    {
        let removed = match name {
            AllowedFieldName::RelayResolverField => self.relay_resolver.take(),
            AllowedFieldName::DeprecatedField => self.deprecated.take(),
            AllowedFieldName::EdgeToField => self.edge_to.take(),
            AllowedFieldName::FieldNameField => self.field_name.take(),
            AllowedFieldName::LiveField => self.live.take(),
            AllowedFieldName::OnInterfaceField => self.on_interface.take(),
            AllowedFieldName::OnTypeField => self.on_type.take(),
            AllowedFieldName::OutputTypeField => self.output_type.take(),
            AllowedFieldName::RelayFieldField => self.relay_field.take(),
            AllowedFieldName::RelayTypeField => self.relay_type.take(),
            AllowedFieldName::ReturnFragmentField => self.return_fragment.take(),
            AllowedFieldName::RootFragmentField => self.root_fragment.take(),
            AllowedFieldName::WeakField => self.weak.take(),
        };
        proof {
            assert(self@ =~= old(self)@.remove(name)) by {
                assert forall|other: AllowedFieldName| other != name implies self.slot(other)
                    == old(self).slot(other) by {}
            }
        }
        removed
    }

    /// Whether the map holds no field.
    pub fn is_empty(&self) -> (empty: bool)
        ensures
            empty == (self@ == Map::<AllowedFieldName, IrField>::empty()),
    {
        let empty = self.relay_resolver.is_none() && self.deprecated.is_none()
            && self.edge_to.is_none() && self.field_name.is_none() && self.live.is_none()
            && self.on_interface.is_none() && self.on_type.is_none()
            && self.output_type.is_none() && self.relay_field.is_none()
            && self.relay_type.is_none() && self.return_fragment.is_none()
            && self.root_fragment.is_none() && self.weak.is_none();
        proof {
            if empty {
                assert(self@ =~= Map::<AllowedFieldName, IrField>::empty());
            } else {
                let held = choose|name: AllowedFieldName| self.slot(name) is Some;
                assert(self.slot(AllowedFieldName::RelayResolverField) is Some || self.slot(
                    AllowedFieldName::DeprecatedField,
                ) is Some || self.slot(AllowedFieldName::EdgeToField) is Some || self.slot(
                    AllowedFieldName::FieldNameField,
                ) is Some || self.slot(AllowedFieldName::LiveField) is Some || self.slot(
                    AllowedFieldName::OnInterfaceField,
                ) is Some || self.slot(AllowedFieldName::OnTypeField) is Some || self.slot(
                    AllowedFieldName::OutputTypeField,
                ) is Some || self.slot(AllowedFieldName::RelayFieldField) is Some || self.slot(
                    AllowedFieldName::RelayTypeField,
                ) is Some || self.slot(AllowedFieldName::ReturnFragmentField) is Some
                    || self.slot(AllowedFieldName::RootFragmentField) is Some || self.slot(
                    AllowedFieldName::WeakField,
                ) is Some);
                assert(self@.contains_key(held));
            }
        }
        empty
    }
}

/// The hash of the source text that a docblock came from. It is carried
/// into the result unchanged.
#[derive(Clone, Debug, PartialEq, Eq)]
pub struct ResolverSourceHash {
    pub value: String,
}

impl ResolverSourceHash {
    pub fn new(value: String) -> (hash: ResolverSourceHash)
        ensures
            hash.value == value,
    {
        ResolverSourceHash { value }
    }
}

/// A docblock after tokenizing: its free text, its fields, and the hash of
/// its source.
#[derive(Clone, Debug, PartialEq, Eq)]
pub struct UntypedDocblockRepresentation {
    pub description: Option<LocatedString>,
    pub fields: FieldMap,
    pub source_hash: ResolverSourceHash,
}

} // verus!
