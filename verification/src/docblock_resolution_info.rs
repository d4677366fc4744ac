//! From a cursor in a resolved docblock to what the cursor is on.

use vstd::prelude::*;
use crate::ir::{
    DocblockIr, ResolverFieldDocblockIr, ResolverTypeDocblockIr, TerseRelayResolverIr,
};
use crate::location::Span;
use crate::syntax::InputValueDefinitionView;
use crate::untyped_representation::IrField;

verus! {

/// What a cursor in a docblock is on.
#[derive(Clone, Debug, PartialEq, Eq)]
pub enum DocblockResolutionInfo {
    /// A type, by its name.
    Type(String),
    /// The root fragment, by its name.
    RootFragment(String),
    /// The name of the field.
    FieldName(String),
    /// The name of an argument of the field.
    FieldArgumentName,
    /// The tag `@deprecated`.
    Deprecated,
}

pub enum DocblockResolutionInfoView {
    Type(Seq<char>),
    RootFragment(Seq<char>),
    FieldName(Seq<char>),
    FieldArgumentName,
    Deprecated,
}

impl DeepView for DocblockResolutionInfo {
    type V = DocblockResolutionInfoView;

    open spec fn deep_view(&self) -> DocblockResolutionInfoView {
        match self {
            DocblockResolutionInfo::Type(name) => DocblockResolutionInfoView::Type(name@),
            DocblockResolutionInfo::RootFragment(name) => DocblockResolutionInfoView::RootFragment(
                name@,
            ),
            DocblockResolutionInfo::FieldName(name) => DocblockResolutionInfoView::FieldName(name@),
            DocblockResolutionInfo::FieldArgumentName =>
                DocblockResolutionInfoView::FieldArgumentName,
            DocblockResolutionInfo::Deprecated => DocblockResolutionInfoView::Deprecated,
        }
    }
}

/// The cursor is on the tag of the field `@deprecated`.
pub open spec fn on_deprecated(deprecated: Option<IrField>, position_span: Span) -> bool {
    match deprecated {
        Some(field) => field.spec_key_location().spec_contains(position_span),
        None => false,
    }
}

/// The cursor is on the name of one of the arguments.
pub open spec fn on_argument_name(arguments: Seq<InputValueDefinitionView>, position_span: Span) -> bool {
    exists|i: int| 0 <= i < arguments.len() && arguments[i].name.span.spec_contains(position_span)
}

/// What a cursor in a terse resolver is on: the first of the parent
/// type, the type of the field, the root fragment, the name of the field,
/// the name of an argument, and the tag `@deprecated`.
pub open spec fn spec_terse_resolution_info(
    ir: TerseRelayResolverIr,
    position_span: Span,
) -> Option<DocblockResolutionInfoView> {
    let field = ir.field.deep_view();
    if ir.type_.location.spec_contains(position_span) {
        Some(DocblockResolutionInfoView::Type(ir.type_.item@))
    } else if field.type_.span().spec_contains(position_span) {
        Some(DocblockResolutionInfoView::Type(field.type_.inner_name().value))
    } else if ir.root_fragment is Some && ir.root_fragment->0.location.spec_contains(
        position_span,
    ) {
        Some(DocblockResolutionInfoView::RootFragment(ir.root_fragment->0.item@))
    } else if field.name.span.spec_contains(position_span) {
        Some(DocblockResolutionInfoView::FieldName(field.name.value))
    } else if field.arguments is Some && on_argument_name(
        field.arguments->0.items,
        position_span,
    ) {
        Some(DocblockResolutionInfoView::FieldArgumentName)
    } else if on_deprecated(ir.deprecated, position_span) {
        Some(DocblockResolutionInfoView::Deprecated)
    } else {
        None
    }
}

/// What a cursor in a resolved docblock is on; nothing where it is on
/// none of the parts that have a meaning of their own. In a type, these
/// are the value of the resolver tag, which names the type, and the tag
/// `@deprecated`.
pub open spec fn spec_docblock_resolution_info(
    docblock_ir: DocblockIr,
    position_span: Span,
) -> Option<DocblockResolutionInfoView> {
    match docblock_ir {
        DocblockIr::Field(ResolverFieldDocblockIr::TerseRelayResolver(ir)) =>
            spec_terse_resolution_info(ir, position_span),
        DocblockIr::Type(ResolverTypeDocblockIr::StrongObjectResolver(ir)) => {
            if ir.rhs_location.spec_contains(position_span) {
                Some(DocblockResolutionInfoView::Type(ir.typename.value@))
            } else if on_deprecated(ir.deprecated, position_span) {
                Some(DocblockResolutionInfoView::Deprecated)
            } else {
                None
            }
        },
        DocblockIr::Type(ResolverTypeDocblockIr::WeakObjectType(ir)) => {
            if ir.rhs_location.spec_contains(position_span) {
                Some(DocblockResolutionInfoView::Type(ir.typename.value@))
            } else if on_deprecated(ir.deprecated, position_span) {
                Some(DocblockResolutionInfoView::Deprecated)
            } else {
                None
            }
        },
    }
}

fn is_on_deprecated(deprecated: &Option<IrField>, position_span: Span) -> (on: bool)
    ensures
        on == on_deprecated(*deprecated, position_span),
{
    match deprecated {
        Some(field) => field.key_location().contains(position_span),
        None => false,
    }
}

#[verifier::loop_isolation(false)]
fn terse_resolution_info(resolver_ir: &TerseRelayResolverIr, position_span: Span) -> (info: Option<
    DocblockResolutionInfo,
>)
    ensures
        info.deep_view() == spec_terse_resolution_info(*resolver_ir, position_span),
{
    if resolver_ir.type_.location.contains(position_span) {
        return Some(DocblockResolutionInfo::Type(resolver_ir.type_.item.clone()));
    }
    if resolver_ir.field.type_.span().contains(position_span) {
        return Some(DocblockResolutionInfo::Type(resolver_ir.field.type_.inner().value.clone()));
    }
    match &resolver_ir.root_fragment {
        Some(root_fragment) => {
            if root_fragment.location.contains(position_span) {
                return Some(DocblockResolutionInfo::RootFragment(root_fragment.item.clone()));
            }
        },
        None => {},
    }
    if resolver_ir.field.name.span.contains(position_span) {
        return Some(DocblockResolutionInfo::FieldName(resolver_ir.field.name.value.clone()));
    }
    match &resolver_ir.field.arguments {
        Some(field_arguments) => {
            let ghost views = field_arguments.items.deep_view();
            let mut i: usize = 0;
            while i < field_arguments.items.len()
                invariant
                    i <= field_arguments.items.len(),
                    views == field_arguments.items.deep_view(),
                    forall|j: int| 0 <= j < i ==> !views[j].name.span.spec_contains(position_span),
                decreases field_arguments.items.len() - i,
            {
                if field_arguments.items[i].name.span.contains(position_span) {
                    assert(views[i as int].name.span.spec_contains(position_span));
                    return Some(DocblockResolutionInfo::FieldArgumentName);
                }
                i += 1;
            }
        },
        None => {},
    }
    if is_on_deprecated(&resolver_ir.deprecated, position_span) {
        return Some(DocblockResolutionInfo::Deprecated);
    }
    None
}

/// Says what the cursor at `position_span` is on in a resolved docblock.
pub fn create_docblock_resolution_info(docblock_ir: &DocblockIr, position_span: Span) -> (info:
    Option<DocblockResolutionInfo>)
    ensures
        info.deep_view() == spec_docblock_resolution_info(*docblock_ir, position_span),
{
    match docblock_ir {
        DocblockIr::Field(ResolverFieldDocblockIr::TerseRelayResolver(resolver_ir)) =>
            terse_resolution_info(resolver_ir, position_span),
        DocblockIr::Type(ResolverTypeDocblockIr::StrongObjectResolver(strong_object)) => {
            if strong_object.rhs_location.contains(position_span) {
                return Some(DocblockResolutionInfo::Type(strong_object.typename.value.clone()));
            }
            if is_on_deprecated(&strong_object.deprecated, position_span) {
                return Some(DocblockResolutionInfo::Deprecated);
            }
            None
        },
        DocblockIr::Type(ResolverTypeDocblockIr::WeakObjectType(weak_type_ir)) => {
            if weak_type_ir.rhs_location.contains(position_span) {
                return Some(DocblockResolutionInfo::Type(weak_type_ir.typename.value.clone()));
            }
            if is_on_deprecated(&weak_type_ir.deprecated, position_span) {
                return Some(DocblockResolutionInfo::Deprecated);
            }
            None
        },
    }
}

} // verus!
