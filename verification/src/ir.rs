//! What a resolver docblock resolves to: a strong object type, a weak
//! object type, or a field given in terse syntax.

use vstd::prelude::*;
use vstd::string::StringExecFns;
use crate::location::{LocatedString, Location};
use crate::syntax::{
    ConstantDirective, ConstantValue, ConstantValueView, FieldDefinition, Identifier,
    IdentifierView, TypeAnnotation, TypeAnnotationView,
};
use crate::untyped_representation::{IrField, ResolverSourceHash, UnpopulatedIrField};

verus! {

/// The project that a docblock belongs to.
#[derive(Clone, Debug, PartialEq, Eq)]
pub enum ProjectName {
    Default,
    Named(String),
}

/// The name of the field that holds the identity of a strong object.
pub open spec fn spec_key_resolver_id_field() -> Seq<char> {
    "id"@
}

pub fn key_resolver_id_field() -> (name: &'static str)
    ensures
        name@ == spec_key_resolver_id_field(),
{
    "id"
}

impl ProjectName {
    /// The name made for a field of an object: object and field joined by
    /// two underscores, behind the project's name and two underscores
    /// where the project has a name.
    pub open spec fn spec_generate_name_for_object_and_field(
        &self,
        object_name: Seq<char>,
        field_name: Seq<char>,
    ) -> Seq<char> {
        match self {
            ProjectName::Default => object_name + "__"@ + field_name,
            ProjectName::Named(project) => project@ + "__"@ + object_name + "__"@ + field_name,
        }
    }

    pub fn generate_name_for_object_and_field(&self, object_name: &str, field_name: &str) -> (name:
        String)
        ensures
            name@ == self.spec_generate_name_for_object_and_field(object_name@, field_name@),
    {
        match self {
            ProjectName::Default => {
                let mut name = String::from_str(object_name);
                name.append("__");
                name.append(field_name);
                name
            },
            ProjectName::Named(project) => {
                let mut name = String::from_str(project.as_str());
                name.append("__");
                name.append(object_name);
                name.append("__");
                name.append(field_name);
                name
            },
        }
    }
}

/// An argument that a fragment takes: its name, its type, and its default
/// value if it has one.
#[derive(Clone, Debug, PartialEq, Eq)]
pub struct Argument {
    pub name: Identifier,
    pub type_: TypeAnnotation,
    pub default_value: Option<ConstantValue>,
}

pub struct ArgumentView {
    pub name: IdentifierView,
    pub type_: TypeAnnotationView,
    pub default_value: Option<ConstantValueView>,
}

impl DeepView for Argument {
    type V = ArgumentView;

    open spec fn deep_view(&self) -> ArgumentView {
        ArgumentView {
            name: self.name.deep_view(),
            type_: self.type_.deep_view(),
            default_value: match self.default_value {
                Some(value) => Some(value.deep_view()),
                None => None,
            },
        }
    }
}

/// An object type with an identity of its own: its values are found by
/// an ID.
#[derive(Clone, Debug, PartialEq, Eq)]
pub struct StrongObjectIr {
    pub typename: Identifier,
    pub rhs_location: Location,
    pub root_fragment: LocatedString,
    pub description: Option<LocatedString>,
    pub deprecated: Option<IrField>,
    pub live: Option<UnpopulatedIrField>,
    pub semantic_non_null: Option<ConstantDirective>,
    pub location: Location,
    pub implements_interfaces: Vec<Identifier>,
    pub source_hash: ResolverSourceHash,
    pub type_confirmed: bool,
}

/// An object type without identity: its values live inside other values.
#[derive(Clone, Debug, PartialEq, Eq)]
pub struct WeakObjectIr {
    pub typename: Identifier,
    pub rhs_location: Location,
    pub description: Option<LocatedString>,
    pub hack_source: Option<LocatedString>,
    pub deprecated: Option<IrField>,
    pub location: Location,
    pub implements_interfaces: Vec<Identifier>,
    pub source_hash: ResolverSourceHash,
    pub type_confirmed: bool,
}

/// A field of an existing type, given as `ParentType.field: ReturnType`.
#[derive(Clone, Debug, PartialEq, Eq)]
pub struct TerseRelayResolverIr {
    pub field: FieldDefinition,
    pub type_: LocatedString,
    pub root_fragment: Option<LocatedString>,
    pub return_fragment: Option<LocatedString>,
    pub deprecated: Option<IrField>,
    pub semantic_non_null: Option<ConstantDirective>,
    pub live: Option<UnpopulatedIrField>,
    pub location: Location,
    pub fragment_arguments: Option<Vec<Argument>>,
    pub source_hash: ResolverSourceHash,
    pub type_confirmed: bool,
    pub property_lookup_name: Option<LocatedString>,
}

#[derive(Clone, Debug, PartialEq, Eq)]
pub enum ResolverTypeDocblockIr {
    StrongObjectResolver(StrongObjectIr),
    WeakObjectType(WeakObjectIr),
}

#[derive(Clone, Debug, PartialEq, Eq)]
pub enum ResolverFieldDocblockIr {
    TerseRelayResolver(TerseRelayResolverIr),
}

/// What a docblock declares: a type or a field.
#[derive(Clone, Debug, PartialEq, Eq)]
pub enum DocblockIr {
    Type(ResolverTypeDocblockIr),
    Field(ResolverFieldDocblockIr),
}

impl DocblockIr {
    /// Whether a type is declared, not a field.
    pub open spec fn spec_is_type(&self) -> bool {
        self is Type
    }

    #[verifier::when_used_as_spec(spec_is_type)]
    pub fn is_type(&self) -> (is_type: bool)
        ensures
            is_type == self.spec_is_type(),
    {
        match self {
            DocblockIr::Type(_) => true,
            DocblockIr::Field(_) => false,
        }
    }

    /// The name that switches are asked about: the type's name, or the
    /// field's name.
    pub open spec fn spec_primary_name(&self) -> Seq<char> {
        match self {
            DocblockIr::Type(ResolverTypeDocblockIr::StrongObjectResolver(ir)) => ir.typename.value@,
            DocblockIr::Type(ResolverTypeDocblockIr::WeakObjectType(ir)) => ir.typename.value@,
            DocblockIr::Field(ResolverFieldDocblockIr::TerseRelayResolver(ir)) =>
                ir.field.name.value@,
        }
    }

    pub fn primary_name(&self) -> (name: &String)
        ensures
            name@ == self.spec_primary_name(),
    {
        match self {
            DocblockIr::Type(ResolverTypeDocblockIr::StrongObjectResolver(ir)) => &ir.typename.value,
            DocblockIr::Type(ResolverTypeDocblockIr::WeakObjectType(ir)) => &ir.typename.value,
            DocblockIr::Field(ResolverFieldDocblockIr::TerseRelayResolver(ir)) =>
                &ir.field.name.value,
        }
    }

    /// The name of the kind of resolver, as messages put it.
    pub open spec fn spec_get_variant_name(&self) -> Seq<char> {
        match self {
            DocblockIr::Type(ResolverTypeDocblockIr::StrongObjectResolver(_)) =>
                "StrongObjectResolver"@,
            DocblockIr::Type(ResolverTypeDocblockIr::WeakObjectType(_)) => "WeakObjectType"@,
            DocblockIr::Field(ResolverFieldDocblockIr::TerseRelayResolver(_)) =>
                "TerseRelayResolver"@,
        }
    }

    pub fn get_variant_name(&self) -> (name: &'static str)
        ensures
            name@ == self.spec_get_variant_name(),
    {
        match self {
            DocblockIr::Type(ResolverTypeDocblockIr::StrongObjectResolver(_)) =>
                "StrongObjectResolver",
            DocblockIr::Type(ResolverTypeDocblockIr::WeakObjectType(_)) => "WeakObjectType",
            DocblockIr::Field(ResolverFieldDocblockIr::TerseRelayResolver(_)) =>
                "TerseRelayResolver",
        }
    }
}

} // verus!
