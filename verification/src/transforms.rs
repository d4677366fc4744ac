//! Rules of two transforms of programs: arguments that are null are left
//! out, and the return fragments of shadow resolvers are held to their
//! rules. Walking the program is not done here; what is decided for each
//! argument and each field is.

use vstd::prelude::*;
use crate::executable::{Argument, Value};
use crate::lexer::{next_lexeme, next_token, TokenKind};
use crate::location::Location;
use crate::source::chars_of;
use crate::syntax::ConstantValue;

verus! {

/// What becomes of a node that a transform looks at.
#[derive(Clone, Copy, Debug, PartialEq, Eq, Structural)]
pub enum Transformed {
    Delete,
    Keep,
}

/// The transform that leaves out arguments whose value is `null`.
pub struct SkipNullArgumentsTransform;

/// The value of the argument is the constant `null`.
pub open spec fn spec_is_null_argument(argument: Argument) -> bool {
    argument.value matches Value::Constant(ConstantValue::Null { .. })
}

impl SkipNullArgumentsTransform {
    /// An argument is deleted exactly where its value is the constant
    /// `null`.
    pub fn transform_argument(&mut self, argument: &Argument) -> (transformed: Transformed)
        ensures
            transformed == if spec_is_null_argument(*argument) {
                Transformed::Delete
            } else {
                Transformed::Keep
            },
    {
        match &argument.value {
            Value::Constant(ConstantValue::Null { .. }) => Transformed::Delete,
            _ => Transformed::Keep,
        }
    }
}

/// The first `count` of `arguments` without those that are null.
pub open spec fn spec_skip_null_arguments(arguments: Seq<Argument>, count: int) -> Seq<Argument>
    decreases count,
{
    if count <= 0 {
        Seq::empty()
    } else if spec_is_null_argument(arguments[count - 1]) {
        spec_skip_null_arguments(arguments, count - 1)
    } else {
        spec_skip_null_arguments(arguments, count - 1).push(arguments[count - 1])
    }
}

/// The arguments without those whose value is `null`, in their order.
pub fn skip_null_arguments(arguments: Vec<Argument>) -> (kept: Vec<Argument>)
    ensures
        kept@ == spec_skip_null_arguments(arguments@, arguments.len() as int),
{
    let mut transform = SkipNullArgumentsTransform;
    let mut rest = arguments;
    let ghost all = rest@;
    let mut kept: Vec<Argument> = Vec::new();
    let mut done: usize = 0;
    let total = rest.len();
    proof {
        assert(all.skip(0) =~= all);
    }
    while rest.len() > 0
        invariant
            done + rest.len() == all.len(),
            all.len() == total,
            rest@ == all.skip(done as int),
            kept@ == spec_skip_null_arguments(all, done as int),
        decreases rest.len(),
    {
        let argument = rest.remove(0);
        proof {
            assert(argument == all[done as int]);
            assert(rest@ =~= all.skip(done as int + 1));
        }
        match transform.transform_argument(&argument) {
            Transformed::Delete => {},
            Transformed::Keep => {
                kept.push(argument);
            },
        }
        done += 1;
    }
    kept
}

/// Whether `name` is a name as GraphQL writes names: a letter or an
/// underscore, then letters, digits and underscores, and nothing else.
pub open spec fn spec_is_valid_identifier(name: Seq<char>) -> bool {
    let token = next_lexeme(name, 0);
    token.kind == TokenKind::Name && token.start == 0 && token.end == name.len()
}

pub fn is_valid_identifier(name: &str) -> (valid: bool)
    ensures
        valid == spec_is_valid_identifier(name@),
{
    let chars = chars_of(name);
    let token = next_token(&chars, 0);
    match token.kind {
        TokenKind::Name => token.start == 0 && token.end == chars.len(),
        _ => false,
    }
}

/// What a rule of return fragments found wrong.
#[derive(Clone, Debug, PartialEq, Eq)]
pub enum ValidationMessage {
    ReturnFragmentRequiresFeatureFlag,
    ReturnFragmentInvalidName { name: String },
    ReturnFragmentConflictsWithExistingFragment { name: String },
    ReturnFragmentInvalidModuleName { module_name: String, fragment_name: String },
}

pub enum ValidationMessageView {
    ReturnFragmentRequiresFeatureFlag,
    ReturnFragmentInvalidName { name: Seq<char> },
    ReturnFragmentConflictsWithExistingFragment { name: Seq<char> },
    ReturnFragmentInvalidModuleName { module_name: Seq<char>, fragment_name: Seq<char> },
}

impl DeepView for ValidationMessage {
    type V = ValidationMessageView;

    open spec fn deep_view(&self) -> ValidationMessageView {
        match self {
            ValidationMessage::ReturnFragmentRequiresFeatureFlag =>
                ValidationMessageView::ReturnFragmentRequiresFeatureFlag,
            ValidationMessage::ReturnFragmentInvalidName { name } =>
                ValidationMessageView::ReturnFragmentInvalidName { name: name@ },
            ValidationMessage::ReturnFragmentConflictsWithExistingFragment { name } =>
                ValidationMessageView::ReturnFragmentConflictsWithExistingFragment { name: name@ },
            ValidationMessage::ReturnFragmentInvalidModuleName { module_name, fragment_name } =>
                ValidationMessageView::ReturnFragmentInvalidModuleName {
                    module_name: module_name@,
                    fragment_name: fragment_name@,
                },
        }
    }
}

/// A problem with a return fragment: what, where, and where the fragment
/// that is in its way is defined.
#[derive(Clone, Debug, PartialEq, Eq)]
pub struct ValidationDiagnostic {
    pub message: ValidationMessage,
    pub location: Location,
    pub existing_fragment: Option<Location>,
}

pub struct ValidationDiagnosticView {
    pub message: ValidationMessageView,
    pub location: Location,
    pub existing_fragment: Option<Location>,
}

impl DeepView for ValidationDiagnostic {
    type V = ValidationDiagnosticView;

    open spec fn deep_view(&self) -> ValidationDiagnosticView {
        ValidationDiagnosticView {
            message: self.message.deep_view(),
            location: self.location,
            existing_fragment: self.existing_fragment,
        }
    }
}

/// A resolver field that names a return fragment.
#[derive(Clone, Debug, PartialEq, Eq)]
pub struct ReturnFragmentUse {
    /// Where the name of the fragment is written.
    pub location: Location,
    /// The name of the fragment; none where the value is no string.
    pub fragment_name: Option<String>,
    /// Where a fragment of that name is defined in the project already.
    pub existing_fragment: Option<Location>,
    /// The name of the module that the field is written in; none for
    /// generated sources and for files that name no module.
    pub module_name: Option<String>,
}

/// What is wrong with the return fragment of one field. Without the
/// switch for shadow resolvers any return fragment is an error and
/// nothing else is looked at. With it, a name that is no GraphQL name is
/// an error and nothing else is looked at; else a fragment of that name
/// that exists already is an error, and so is a name that does not begin
/// with the name of the module.
pub open spec fn spec_validate_return_fragment(
    usage: ReturnFragmentUse,
    enabled: bool,
) -> Seq<ValidationDiagnosticView> {
    if !enabled {
        seq![
            ValidationDiagnosticView {
                message: ValidationMessageView::ReturnFragmentRequiresFeatureFlag,
                location: usage.location,
                existing_fragment: None,
            },
        ]
    } else {
        match usage.fragment_name {
            None => Seq::empty(),
            Some(name) => if !spec_is_valid_identifier(name@) {
                seq![
                    ValidationDiagnosticView {
                        message: ValidationMessageView::ReturnFragmentInvalidName { name: name@ },
                        location: usage.location,
                        existing_fragment: None,
                    },
                ]
            } else {
                let conflict = match usage.existing_fragment {
                    Some(existing) => seq![
                        ValidationDiagnosticView {
                            message:
                                ValidationMessageView::ReturnFragmentConflictsWithExistingFragment {
                                    name: name@,
                                },
                            location: usage.location,
                            existing_fragment: Some(existing),
                        },
                    ],
                    None => Seq::empty(),
                };
                match usage.module_name {
                    Some(module_name) => if !crate::project_fixture::spec_starts_with(
                        name@,
                        module_name@,
                    ) {
                        conflict.push(
                            ValidationDiagnosticView {
                                message: ValidationMessageView::ReturnFragmentInvalidModuleName {
                                    module_name: module_name@,
                                    fragment_name: name@,
                                },
                                location: usage.location,
                                existing_fragment: None,
                            },
                        )
                    } else {
                        conflict
                    },
                    None => conflict,
                }
            },
        }
    }
}

/// Holds the return fragment of one field to its rules and puts what is
/// wrong behind `errors`.
pub fn validate_return_fragment(
    usage: &ReturnFragmentUse,
    enabled: bool,
    errors: &mut Vec<ValidationDiagnostic>,
)
    ensures
        final(errors).deep_view() == old(errors).deep_view() + spec_validate_return_fragment(
            *usage,
            enabled,
        ),
{
    let ghost start = errors.deep_view();
    if !enabled {
        let ghost before = *errors;
        let error = ValidationDiagnostic {
            message: ValidationMessage::ReturnFragmentRequiresFeatureFlag,
            location: usage.location,
            existing_fragment: None,
        };
        errors.push(error);
        proof {
            crate::parser::lemma_deep_view_push(before, *errors, error);
            assert(errors.deep_view() =~= start + spec_validate_return_fragment(*usage, enabled));
        }
        return ;
    }
    let name = match &usage.fragment_name {
        Some(name) => name,
        None => {
            proof {
                assert(errors.deep_view() =~= start + spec_validate_return_fragment(
                    *usage,
                    enabled,
                ));
            }
            return ;
        },
    };
    if !is_valid_identifier(name.as_str()) {
        let ghost before = *errors;
        let error = ValidationDiagnostic {
            message: ValidationMessage::ReturnFragmentInvalidName { name: name.clone() },
            location: usage.location,
            existing_fragment: None,
        };
        errors.push(error);
        proof {
            crate::parser::lemma_deep_view_push(before, *errors, error);
            assert(errors.deep_view() =~= start + spec_validate_return_fragment(*usage, enabled));
        }
        return ;
    }
    match usage.existing_fragment {
        Some(existing) => {
            let ghost before = *errors;
            let error = ValidationDiagnostic {
                message: ValidationMessage::ReturnFragmentConflictsWithExistingFragment {
                    name: name.clone(),
                },
                location: usage.location,
                existing_fragment: Some(existing),
            };
            errors.push(error);
            proof {
                crate::parser::lemma_deep_view_push(before, *errors, error);
            }
        },
        None => {},
    }
    match &usage.module_name {
        Some(module_name) => {
            if !crate::project_fixture::starts_with(name.as_str(), module_name.as_str()) {
                let ghost before = *errors;
                let error = ValidationDiagnostic {
                    message: ValidationMessage::ReturnFragmentInvalidModuleName {
                        module_name: module_name.clone(),
                        fragment_name: name.clone(),
                    },
                    location: usage.location,
                    existing_fragment: None,
                };
                errors.push(error);
                proof {
                    crate::parser::lemma_deep_view_push(before, *errors, error);
                }
            }
        },
        None => {},
    }
    proof {
        assert(errors.deep_view() =~= start + spec_validate_return_fragment(*usage, enabled));
    }
}

/// What is wrong with the return fragments of the first `count` fields.
pub open spec fn spec_shadow_resolver_errors(
    usages: Seq<ReturnFragmentUse>,
    enabled: bool,
    count: int,
) -> Seq<ValidationDiagnosticView>
    decreases count,
{
    if count <= 0 {
        Seq::empty()
    } else {
        spec_shadow_resolver_errors(usages, enabled, count - 1) + spec_validate_return_fragment(
            usages[count - 1],
            enabled,
        )
    }
}

/// Holds the return fragments of the resolver fields of a program to
/// their rules: nothing is wrong, or all that is wrong.
pub fn shadow_resolvers_transform(usages: &Vec<ReturnFragmentUse>, enabled: bool) -> (result:
    Result<(), Vec<ValidationDiagnostic>>)
    ensures
        match result {
            Ok(_) => spec_shadow_resolver_errors(usages@, enabled, usages.len() as int).len() == 0,
            Err(errors) => errors.len() > 0 && errors.deep_view() == spec_shadow_resolver_errors(
                usages@,
                enabled,
                usages.len() as int,
            ),
        },
{
    let mut errors: Vec<ValidationDiagnostic> = Vec::new();
    proof {
        assert(errors.deep_view() =~= Seq::empty());
    }
    let mut i: usize = 0;
    while i < usages.len()
        invariant
            i <= usages.len(),
            errors.deep_view() == spec_shadow_resolver_errors(usages@, enabled, i as int),
        decreases usages.len() - i,
    {
        validate_return_fragment(&usages[i], enabled, &mut errors);
        i += 1;
    }
    if errors.len() == 0 {
        Ok(())
    } else {
        Err(errors)
    }
}

} // verus!
