//! The executable definitions that stand in the same file as a docblock:
//! what a resolver's root fragment is looked up in.

use vstd::prelude::*;
use crate::location::{Location, Span};
use crate::syntax::{ConstantValue, Identifier};

verus! {

/// A variable as written: `$name`.
#[derive(Debug, PartialEq, Eq)]
pub struct VariableIdentifier {
    pub span: Span,
    pub name: String,
}

/// The value of an argument: a constant, a variable, or a list or object
/// that holds variables.
#[derive(Debug, PartialEq, Eq)]
pub enum Value {
    Constant(ConstantValue),
    Variable(VariableIdentifier),
    List { span: Span, items: Vec<Value> },
    Object { span: Span, fields: Vec<Argument> },
}

/// A name with the value given to it.
#[derive(Debug, PartialEq, Eq)]
pub struct Argument {
    pub span: Span,
    pub name: Identifier,
    pub value: Value,
}

/// The arguments of a directive, in their parentheses.
#[derive(Debug, PartialEq, Eq)]
pub struct ArgumentList {
    pub span: Span,
    pub items: Vec<Argument>,
}

/// A directive: `@name(argument: value)`.
#[derive(Debug, PartialEq, Eq)]
pub struct Directive {
    pub span: Span,
    pub name: Identifier,
    pub arguments: Option<ArgumentList>,
}

/// The type that a fragment is on: `on Type`.
#[derive(Debug, PartialEq, Eq)]
pub struct TypeCondition {
    pub span: Span,
    pub type_: Identifier,
}

/// A fragment definition, as far as docblocks read it.
#[derive(Debug, PartialEq, Eq)]
pub struct FragmentDefinition {
    pub location: Location,
    pub name: Identifier,
    pub type_condition: TypeCondition,
    pub directives: Vec<Directive>,
}

/// A query, mutation or subscription, as far as docblocks read it.
#[derive(Debug, PartialEq, Eq)]
pub struct OperationDefinition {
    pub location: Location,
    pub name: Option<Identifier>,
}

/// A definition in a file of executable definitions.
#[derive(Debug, PartialEq, Eq)]
pub enum ExecutableDefinition {
    Operation(OperationDefinition),
    Fragment(FragmentDefinition),
}

impl ExecutableDefinition {
    /// The name of the definition; an operation may have none.
    pub open spec fn spec_name(&self) -> Option<Seq<char>> {
        match self {
            ExecutableDefinition::Operation(operation) => match operation.name {
                Some(name) => Some(name.value@),
                None => None,
            },
            ExecutableDefinition::Fragment(fragment) => Some(fragment.name.value@),
        }
    }

    /// The name of the definition; an operation may have none.
    pub fn name(&self) -> (name: Option<&String>)
        ensures
            match name {
                Some(name) => self.spec_name() == Some(name@),
                None => self.spec_name() is None,
            },
    {
        match self {
            ExecutableDefinition::Operation(operation) => match &operation.name {
                Some(name) => Some(&name.value),
                None => None,
            },
            ExecutableDefinition::Fragment(fragment) => Some(&fragment.name.value),
        }
    }
}

} // verus!
