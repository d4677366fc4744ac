//! The syntax nodes that docblock values and fragment definitions are made
//! of, each with the mathematical value it stands for.

use vstd::prelude::*;
use crate::lexer::TokenKind;
use crate::location::Span;

verus! {

/// What a parser looked for where it gave up.
#[derive(Clone, Copy, Debug, PartialEq, Eq, Hash, Structural)]
pub enum SyntaxErrorKind {
    /// A name was expected.
    ExpectedName,
    /// A type was expected: a name or a bracketed type.
    ExpectedType,
    /// A constant value was expected.
    ExpectedConstantValue,
    /// A token of the given kind was expected.
    Expected(TokenKind),
    /// The text at this place forms no token; the kind says why.
    Malformed(TokenKind),
}

/// A syntax error and the span of the token it was found at.
#[derive(Clone, Copy, Debug, PartialEq, Eq, Hash, Structural)]
pub struct SyntaxError {
    pub kind: SyntaxErrorKind,
    pub span: Span,
}

/// A name and where it stands.
#[derive(Clone, Debug, PartialEq, Eq)]
pub struct Identifier {
    pub span: Span,
    pub value: String,
}

pub struct IdentifierView {
    pub span: Span,
    pub value: Seq<char>,
}

impl DeepView for Identifier {
    type V = IdentifierView;

    open spec fn deep_view(&self) -> IdentifierView {
        IdentifierView { span: self.span, value: self.value@ }
    }
}

impl Identifier {
    pub fn new(span: Span, value: String) -> (identifier: Identifier)
        ensures
            identifier == (Identifier { span, value }),
    {
        Identifier { span, value }
    }

    /// A copy that is equal to the original.
    pub fn duplicate(&self) -> (copy: Identifier)
        ensures
            copy == *self,
    {
        Identifier { span: self.span, value: self.value.clone() }
    }
}

/// A string literal and where it stands.
#[derive(Clone, Debug, PartialEq, Eq)]
pub struct StringNode {
    pub span: Span,
    pub value: String,
}

pub struct StringNodeView {
    pub span: Span,
    pub value: Seq<char>,
}

impl DeepView for StringNode {
    type V = StringNodeView;

    open spec fn deep_view(&self) -> StringNodeView {
        StringNodeView { span: self.span, value: self.value@ }
    }
}

/// A type as written: a name, a list of a type, or a type that excludes
/// null.
#[derive(Debug, PartialEq, Eq)]
pub enum TypeAnnotation {
    Named(Identifier),
    List { span: Span, inner: Box<TypeAnnotation> },
    NonNull { span: Span, inner: Box<TypeAnnotation> },
}

pub enum TypeAnnotationView {
    Named(IdentifierView),
    List { span: Span, inner: Box<TypeAnnotationView> },
    NonNull { span: Span, inner: Box<TypeAnnotationView> },
}

/// What a type annotation stands for.
pub open spec fn type_annotation_view(annotation: TypeAnnotation) -> TypeAnnotationView
    decreases annotation,
{
    match annotation {
        TypeAnnotation::Named(name) => TypeAnnotationView::Named(name.deep_view()),
        TypeAnnotation::List { span, inner } => TypeAnnotationView::List {
            span,
            inner: Box::new(type_annotation_view(*inner)),
        },
        TypeAnnotation::NonNull { span, inner } => TypeAnnotationView::NonNull {
            span,
            inner: Box::new(type_annotation_view(*inner)),
        },
    }
}

impl DeepView for TypeAnnotation {
    type V = TypeAnnotationView;

    open spec fn deep_view(&self) -> TypeAnnotationView {
        type_annotation_view(*self)
    }
}

impl TypeAnnotationView {
    pub open spec fn span(self) -> Span {
        match self {
            TypeAnnotationView::Named(name) => name.span,
            TypeAnnotationView::List { span, .. } => span,
            TypeAnnotationView::NonNull { span, .. } => span,
        }
    }

    /// The name at the core of the type, under its lists and non-null
    /// marks.
    pub open spec fn inner_name(self) -> IdentifierView
        decreases self,
    {
        match self {
            TypeAnnotationView::Named(name) => name,
            TypeAnnotationView::List { inner, .. } => inner.inner_name(),
            TypeAnnotationView::NonNull { inner, .. } => inner.inner_name(),
        }
    }
}

impl Clone for TypeAnnotation {
    fn clone(&self) -> (copy: TypeAnnotation)
        ensures
            copy.deep_view() == self.deep_view(),
        decreases self,
    {
        match self {
            TypeAnnotation::Named(name) => TypeAnnotation::Named(name.duplicate()),
            TypeAnnotation::List { span, inner } => TypeAnnotation::List {
                span: *span,
                inner: Box::new((**inner).clone()),
            },
            TypeAnnotation::NonNull { span, inner } => TypeAnnotation::NonNull {
                span: *span,
                inner: Box::new((**inner).clone()),
            },
        }
    }
}

impl TypeAnnotation {
    /// The span of the whole type.
    pub fn span(&self) -> (span: Span)
        ensures
            span == self.deep_view().span(),
    {
        match self {
            TypeAnnotation::Named(name) => name.span,
            TypeAnnotation::List { span, .. } => *span,
            TypeAnnotation::NonNull { span, .. } => *span,
        }
    }

    /// The name at the core of the type, under its lists and non-null
    /// marks.
    pub fn inner(&self) -> (name: &Identifier)
        ensures
            name.deep_view() == self.deep_view().inner_name(),
        decreases self,
    {
        match self {
            TypeAnnotation::Named(name) => name,
            TypeAnnotation::List { inner, .. } => inner.inner(),
            TypeAnnotation::NonNull { inner, .. } => inner.inner(),
        }
    }

    pub fn is_non_null(&self) -> (non_null: bool)
        ensures
            non_null == (self.deep_view() is NonNull),
    {
        match self {
            TypeAnnotation::NonNull { .. } => true,
            _ => false,
        }
    }
}

/// A constant value as written. Numbers are kept as their text; a string
/// holds what stands between its quotes, escapes unresolved.
#[derive(Debug, PartialEq, Eq)]
pub enum ConstantValue {
    Int { span: Span, text: String },
    Float { span: Span, text: String },
    String(StringNode),
    Boolean { span: Span, value: bool },
    Null { span: Span },
    Enum { span: Span, name: String },
    List { span: Span, items: Vec<ConstantValue> },
    Object { span: Span, fields: Vec<ConstantArgument> },
}

/// A name with the constant value given to it.
#[derive(Debug, PartialEq, Eq)]
pub struct ConstantArgument {
    pub span: Span,
    pub name: Identifier,
    pub value: ConstantValue,
}

pub enum ConstantValueView {
    Int { span: Span, text: Seq<char> },
    Float { span: Span, text: Seq<char> },
    String(StringNodeView),
    Boolean { span: Span, value: bool },
    Null { span: Span },
    Enum { span: Span, name: Seq<char> },
    List { span: Span, items: Seq<ConstantValueView> },
    Object { span: Span, fields: Seq<ConstantArgumentView> },
}

pub struct ConstantArgumentView {
    pub span: Span,
    pub name: IdentifierView,
    pub value: ConstantValueView,
}

impl ConstantValueView {
    pub open spec fn span(self) -> Span {
        match self {
            ConstantValueView::Int { span, .. } => span,
            ConstantValueView::Float { span, .. } => span,
            ConstantValueView::String(node) => node.span,
            ConstantValueView::Boolean { span, .. } => span,
            ConstantValueView::Null { span } => span,
            ConstantValueView::Enum { span, .. } => span,
            ConstantValueView::List { span, .. } => span,
            ConstantValueView::Object { span, .. } => span,
        }
    }
}

/// What a constant value stands for.
pub open spec fn constant_value_view(value: ConstantValue) -> ConstantValueView
    decreases value,
{
    match value {
        ConstantValue::Int { span, text } => ConstantValueView::Int { span, text: text@ },
        ConstantValue::Float { span, text } => ConstantValueView::Float { span, text: text@ },
        ConstantValue::String(node) => ConstantValueView::String(node.deep_view()),
        ConstantValue::Boolean { span, value } => ConstantValueView::Boolean { span, value },
        ConstantValue::Null { span } => ConstantValueView::Null { span },
        ConstantValue::Enum { span, name } => ConstantValueView::Enum { span, name: name@ },
        ConstantValue::List { span, items } => ConstantValueView::List {
            span,
            items: Seq::new(
                items.len() as nat,
                |i: int|
                    if 0 <= i < items.len() {
                        constant_value_view(items[i])
                    } else {
                        ConstantValueView::Null { span }
                    },
            ),
        },
        ConstantValue::Object { span, fields } => ConstantValueView::Object {
            span,
            fields: Seq::new(
                fields.len() as nat,
                |i: int|
                    ConstantArgumentView {
                        span: fields[i].span,
                        name: fields[i].name.deep_view(),
                        value: if 0 <= i < fields.len() {
                            constant_value_view(fields[i].value)
                        } else {
                            ConstantValueView::Null { span }
                        },
                    },
            ),
        },
    }
}

impl DeepView for ConstantValue {
    type V = ConstantValueView;

    open spec fn deep_view(&self) -> ConstantValueView {
        constant_value_view(*self)
    }
}

impl DeepView for ConstantArgument {
    type V = ConstantArgumentView;

    open spec fn deep_view(&self) -> ConstantArgumentView {
        ConstantArgumentView {
            span: self.span,
            name: self.name.deep_view(),
            value: self.value.deep_view(),
        }
    }
}

/// A list value stands for the list of what its items stand for.
pub proof fn lemma_list_view(span: Span, items: Vec<ConstantValue>)
    ensures
        (ConstantValue::List { span, items }).deep_view() == (ConstantValueView::List {
            span,
            items: items.deep_view(),
        }),
{
    assert((ConstantValue::List { span, items }).deep_view()->items =~= items.deep_view());
}

/// An object value stands for the list of what its fields stand for.
pub proof fn lemma_object_view(span: Span, items: Vec<ConstantArgument>)
    ensures
        (ConstantValue::Object { span, fields: items }).deep_view() == (ConstantValueView::Object {
            span,
            fields: items.deep_view(),
        }),
{
    assert((ConstantValue::Object { span, fields: items }).deep_view()->fields
        =~= items.deep_view());
}

impl ConstantValue {
    /// The span of the whole value.
    pub fn span(&self) -> (span: Span)
        ensures
            span == self.deep_view().span(),
    {
        match self {
            ConstantValue::Int { span, .. } => *span,
            ConstantValue::Float { span, .. } => *span,
            ConstantValue::String(node) => node.span,
            ConstantValue::Boolean { span, .. } => *span,
            ConstantValue::Null { span } => *span,
            ConstantValue::Enum { span, .. } => *span,
            ConstantValue::List { span, .. } => *span,
            ConstantValue::Object { span, .. } => *span,
        }
    }

    /// A copy that stands for the same value.
    #[verifier::loop_isolation(false)]
    pub fn duplicate(&self) -> (copy: ConstantValue)
        ensures
            copy.deep_view() == self.deep_view(),
        decreases self,
    {
        match self {
            ConstantValue::Int { span, text } => ConstantValue::Int {
                span: *span,
                text: text.clone(),
            },
            ConstantValue::Float { span, text } => ConstantValue::Float {
                span: *span,
                text: text.clone(),
            },
            ConstantValue::String(node) => ConstantValue::String(
                StringNode { span: node.span, value: node.value.clone() },
            ),
            ConstantValue::Boolean { span, value } => ConstantValue::Boolean {
                span: *span,
                value: *value,
            },
            ConstantValue::Null { span } => ConstantValue::Null { span: *span },
            ConstantValue::Enum { span, name } => ConstantValue::Enum {
                span: *span,
                name: name.clone(),
            },
            ConstantValue::List { span, items } => {
                let mut copies: Vec<ConstantValue> = Vec::new();
                let mut i: usize = 0;
                while i < items.len()
                    invariant
                        i <= items.len(),
                        copies.len() == i,
                        forall|j: int|
                            0 <= j < i ==> copies[j].deep_view() == items[j].deep_view(),
                    decreases items.len() - i,
                {
                    proof {
                        vstd::std_specs::vec::axiom_vec_index_decreases(*items, i as int);
                    }
                    let copy = items[i].duplicate();
                    copies.push(copy);
                    i += 1;
                }
                proof {
                    lemma_list_view(*span, copies);
                    lemma_list_view(*span, *items);
                    assert(copies.deep_view() =~= items.deep_view());
                }
                ConstantValue::List { span: *span, items: copies }
            },
            ConstantValue::Object { span, fields: items } => {
                let mut copies: Vec<ConstantArgument> = Vec::new();
                let mut i: usize = 0;
                while i < items.len()
                    invariant
                        i <= items.len(),
                        copies.len() == i,
                        forall|j: int|
                            0 <= j < i ==> copies[j].deep_view() == items[j].deep_view(),
                    decreases items.len() - i,
                {
                    proof {
                        vstd::std_specs::vec::axiom_vec_index_decreases(*items, i as int);
                    }
                    let value = items[i].value.duplicate();
                    copies.push(
                        ConstantArgument {
                            span: items[i].span,
                            name: items[i].name.duplicate(),
                            value,
                        },
                    );
                    i += 1;
                }
                proof {
                    lemma_object_view(*span, copies);
                    lemma_object_view(*span, *items);
                    assert(copies.deep_view() =~= items.deep_view());
                }
                ConstantValue::Object { span: *span, fields: copies }
            },
        }
    }
}

impl Clone for ConstantValue {
    fn clone(&self) -> (copy: ConstantValue)
        ensures
            copy.deep_view() == self.deep_view(),
    {
        self.duplicate()
    }
}

impl Clone for ConstantArgument {
    fn clone(&self) -> (copy: ConstantArgument)
        ensures
            copy.deep_view() == self.deep_view(),
    {
        self.duplicate()
    }
}

impl ConstantArgument {
    /// A copy that stands for the same argument.
    pub fn duplicate(&self) -> (copy: ConstantArgument)
        ensures
            copy.deep_view() == self.deep_view(),
    {
        ConstantArgument {
            span: self.span,
            name: self.name.duplicate(),
            value: self.value.duplicate(),
        }
    }
}

/// The arguments of a directive, in their parentheses.
#[derive(Clone, Debug, PartialEq, Eq)]
pub struct ConstantArgumentList {
    pub span: Span,
    pub items: Vec<ConstantArgument>,
}

pub struct ConstantArgumentListView {
    pub span: Span,
    pub items: Seq<ConstantArgumentView>,
}

impl DeepView for ConstantArgumentList {
    type V = ConstantArgumentListView;

    open spec fn deep_view(&self) -> ConstantArgumentListView {
        ConstantArgumentListView { span: self.span, items: self.items.deep_view() }
    }
}

impl ConstantArgumentList {
    /// A copy that stands for the same arguments.
    pub fn duplicate(&self) -> (copy: ConstantArgumentList)
        ensures
            copy.deep_view() == self.deep_view(),
    {
        let mut copies: Vec<ConstantArgument> = Vec::new();
        let mut i: usize = 0;
        while i < self.items.len()
            invariant
                i <= self.items.len(),
                copies.len() == i,
                forall|j: int| 0 <= j < i ==> copies[j].deep_view() == self.items[j].deep_view(),
            decreases self.items.len() - i,
        {
            copies.push(self.items[i].duplicate());
            i += 1;
        }
        proof {
            assert(copies.deep_view() =~= self.items.deep_view());
        }
        ConstantArgumentList { span: self.span, items: copies }
    }
}

/// A directive with constant arguments: `@name(argument: value)`.
#[derive(Clone, Debug, PartialEq, Eq)]
pub struct ConstantDirective {
    pub span: Span,
    pub name: Identifier,
    pub arguments: Option<ConstantArgumentList>,
}

pub struct ConstantDirectiveView {
    pub span: Span,
    pub name: IdentifierView,
    pub arguments: Option<ConstantArgumentListView>,
}

impl DeepView for ConstantDirective {
    type V = ConstantDirectiveView;

    open spec fn deep_view(&self) -> ConstantDirectiveView {
        ConstantDirectiveView {
            span: self.span,
            name: self.name.deep_view(),
            arguments: match self.arguments {
                Some(arguments) => Some(arguments.deep_view()),
                None => None,
            },
        }
    }
}

impl ConstantDirective {
    /// A copy that stands for the same directive.
    pub fn duplicate(&self) -> (copy: ConstantDirective)
        ensures
            copy.deep_view() == self.deep_view(),
    {
        ConstantDirective {
            span: self.span,
            name: self.name.duplicate(),
            arguments: match &self.arguments {
                Some(arguments) => Some(arguments.duplicate()),
                None => None,
            },
        }
    }
}

/// The default value of an argument: `= value`.
#[derive(Clone, Debug, PartialEq, Eq)]
pub struct DefaultValue {
    pub span: Span,
    pub value: ConstantValue,
}

pub struct DefaultValueView {
    pub span: Span,
    pub value: ConstantValueView,
}

impl DeepView for DefaultValue {
    type V = DefaultValueView;

    open spec fn deep_view(&self) -> DefaultValueView {
        DefaultValueView { span: self.span, value: self.value.deep_view() }
    }
}

/// The definition of one argument of a field.
#[derive(Clone, Debug, PartialEq, Eq)]
pub struct InputValueDefinition {
    pub span: Span,
    pub description: Option<StringNode>,
    pub name: Identifier,
    pub type_: TypeAnnotation,
    pub default_value: Option<DefaultValue>,
    pub directives: Vec<ConstantDirective>,
}

pub struct InputValueDefinitionView {
    pub span: Span,
    pub description: Option<StringNodeView>,
    pub name: IdentifierView,
    pub type_: TypeAnnotationView,
    pub default_value: Option<DefaultValueView>,
    pub directives: Seq<ConstantDirectiveView>,
}

impl DeepView for InputValueDefinition {
    type V = InputValueDefinitionView;

    open spec fn deep_view(&self) -> InputValueDefinitionView {
        InputValueDefinitionView {
            span: self.span,
            description: match self.description {
                Some(description) => Some(description.deep_view()),
                None => None,
            },
            name: self.name.deep_view(),
            type_: self.type_.deep_view(),
            default_value: match self.default_value {
                Some(default_value) => Some(default_value.deep_view()),
                None => None,
            },
            directives: self.directives.deep_view(),
        }
    }
}

/// The arguments that a field defines, in their parentheses.
#[derive(Clone, Debug, PartialEq, Eq)]
pub struct InputValueDefinitionList {
    pub span: Span,
    pub items: Vec<InputValueDefinition>,
}

pub struct InputValueDefinitionListView {
    pub span: Span,
    pub items: Seq<InputValueDefinitionView>,
}

impl DeepView for InputValueDefinitionList {
    type V = InputValueDefinitionListView;

    open spec fn deep_view(&self) -> InputValueDefinitionListView {
        InputValueDefinitionListView { span: self.span, items: self.items.deep_view() }
    }
}

/// The definition of a field: `name(arguments): Type @directives`.
#[derive(Clone, Debug, PartialEq, Eq)]
pub struct FieldDefinition {
    pub span: Span,
    pub name: Identifier,
    pub type_: TypeAnnotation,
    pub arguments: Option<InputValueDefinitionList>,
    pub directives: Vec<ConstantDirective>,
    pub description: Option<StringNode>,
}

pub struct FieldDefinitionView {
    pub span: Span,
    pub name: IdentifierView,
    pub type_: TypeAnnotationView,
    pub arguments: Option<InputValueDefinitionListView>,
    pub directives: Seq<ConstantDirectiveView>,
    pub description: Option<StringNodeView>,
}

impl DeepView for FieldDefinition {
    type V = FieldDefinitionView;

    open spec fn deep_view(&self) -> FieldDefinitionView {
        FieldDefinitionView {
            span: self.span,
            name: self.name.deep_view(),
            type_: self.type_.deep_view(),
            arguments: match self.arguments {
                Some(arguments) => Some(arguments.deep_view()),
                None => None,
            },
            directives: self.directives.deep_view(),
            description: match self.description {
                Some(description) => Some(description.deep_view()),
                None => None,
            },
        }
    }
}

} // verus!
