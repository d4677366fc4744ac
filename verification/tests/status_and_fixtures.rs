use relay_docblock::build_status::{BuildStatus, BuildStatusAction, BuildStatusEvent};
use relay_docblock::docblock_ir::{
    is_docblock_readable, parse_docblock_ir, try_parse_docblock_ir,
};
use relay_docblock::docblock_resolution_info::{
    create_docblock_resolution_info, DocblockResolutionInfo,
};
use relay_docblock::executable::{
    Argument, ArgumentList, Directive, ExecutableDefinition, FragmentDefinition, TypeCondition,
    Value, VariableIdentifier,
};
use relay_docblock::ir::ProjectName;
use relay_docblock::location::{LocatedString, Location, SourceLocationKey, Span};
use relay_docblock::options::{FeatureFlag, ParseOptions};
use relay_docblock::project_fixture::{
    format_normalized_path, parse_fixture, serialize, serialize_changes, FileChange,
    FixtureChange, FixtureFile, ProjectFixture,
};
use relay_docblock::status_reporter::{
    completed_line, failed_line, format_build_errors, format_project_error, BuildProjectError, ConsoleStatusReporter,
    DiagnosticSeverity, Error, LogLevel, NoopStatusReporter, PrintedDiagnostic, Report,
    StatusReporter,
};
use relay_docblock::syntax::{ConstantArgument, ConstantValue, Identifier, StringNode};
use relay_docblock::transforms::{
    is_valid_identifier, shadow_resolvers_transform, skip_null_arguments, ReturnFragmentUse,
    SkipNullArgumentsTransform, Transformed, ValidationDiagnostic, ValidationMessage,
};
use relay_docblock::untyped_representation::{
    AllowedFieldName, FieldMap, IrField, ResolverSourceHash, UntypedDocblockRepresentation,
};

fn at(start: u32, end: u32) -> Location {
    Location::new(SourceLocationKey::standalone(1), Span::new(start, end))
}

fn name(start: u32, text: &str) -> Identifier {
    Identifier::new(Span::new(start, start + text.len() as u32), text.to_string())
}

fn printed(severity: DiagnosticSeverity, output: &str) -> PrintedDiagnostic {
    PrintedDiagnostic {
        severity,
        output: output.to_string(),
    }
}

fn report(severity: DiagnosticSeverity, message: &str) -> Report {
    Report {
        severity,
        message: message.to_string(),
    }
}

#[test]
fn reports_of_a_failed_project() {
    let validation = BuildProjectError::ValidationErrors {
        errors: vec![
            printed(DiagnosticSeverity::Error, "bad field"),
            printed(DiagnosticSeverity::Warning, "old field"),
        ],
        project_name: "app".to_string(),
    };
    assert_eq!(
        format_project_error(false, &validation),
        vec![
            report(DiagnosticSeverity::Error, "Error: bad field"),
            report(DiagnosticSeverity::Warning, "old field"),
        ]
    );
    assert_eq!(
        format_project_error(true, &validation),
        vec![
            report(DiagnosticSeverity::Error, "Error in the project `app`: bad field"),
            report(DiagnosticSeverity::Warning, "In the project `app`: old field"),
        ]
    );
    let persist = BuildProjectError::PersistErrors {
        errors: vec!["no network".to_string()],
        project_name: "app".to_string(),
    };
    assert_eq!(
        format_project_error(false, &persist),
        vec![report(DiagnosticSeverity::Error, "Error: no network")]
    );
    assert_eq!(
        format_project_error(true, &persist),
        vec![report(
            DiagnosticSeverity::Error,
            "Error in the project `app`: no network"
        )]
    );
    let other = BuildProjectError::Other {
        message: "disk full".to_string(),
    };
    assert_eq!(
        format_project_error(true, &other),
        vec![report(DiagnosticSeverity::Error, "disk full")]
    );
}

#[test]
fn reports_of_a_failed_build() {
    let failed = report(DiagnosticSeverity::Error, "Compilation failed.");
    assert_eq!(
        format_build_errors(false, &Error::Cancelled),
        vec![report(
            DiagnosticSeverity::Information,
            "Compilation cancelled due to new changes."
        )]
    );
    assert_eq!(
        format_build_errors(
            false,
            &Error::DiagnosticsError {
                errors: vec![
                    printed(DiagnosticSeverity::Hint, "try this"),
                    printed(DiagnosticSeverity::Error, "bad"),
                ]
            }
        ),
        vec![
            report(DiagnosticSeverity::Hint, "try this"),
            report(DiagnosticSeverity::Error, "bad"),
            failed.clone(),
        ]
    );
    assert_eq!(
        format_build_errors(
            true,
            &Error::BuildProjectsErrors {
                errors: vec![
                    BuildProjectError::Other {
                        message: "first".to_string()
                    },
                    BuildProjectError::PersistErrors {
                        errors: vec!["second".to_string(), "third".to_string()],
                        project_name: "app".to_string()
                    },
                ]
            }
        ),
        vec![
            report(DiagnosticSeverity::Error, "first"),
            report(DiagnosticSeverity::Error, "Error in the project `app`: second"),
            report(DiagnosticSeverity::Error, "Error in the project `app`: third"),
            failed.clone(),
        ]
    );
    assert_eq!(
        format_build_errors(
            false,
            &Error::Other {
                message: "config not found".to_string()
            }
        ),
        vec![report(DiagnosticSeverity::Error, "config not found"), failed]
    );
}

#[test]
fn lines_of_a_json_reporter() {
    assert_eq!(
        completed_line("[]"),
        "{\"completed\":true,\"diagnostics\":[]}"
    );
    assert_eq!(
        failed_line("\"oops\""),
        "{\"completed\":false,\"error\":\"oops\"}"
    );
}

#[test]
fn reporters() {
    let reporter = ConsoleStatusReporter::new(std::path::PathBuf::from("/repo"), true);
    assert_eq!(reporter.root_dir, std::path::PathBuf::from("/repo"));
    assert!(reporter.is_multi_project);
    assert_eq!(
        reporter.build_error_reports(&Error::Other {
            message: "oops".to_string()
        }),
        format_build_errors(
            true,
            &Error::Other {
                message: "oops".to_string()
            }
        )
    );
    assert_eq!(
        ConsoleStatusReporter::log_level(DiagnosticSeverity::Error),
        Some(LogLevel::Error)
    );
    assert_eq!(
        ConsoleStatusReporter::log_level(DiagnosticSeverity::Warning),
        Some(LogLevel::Warn)
    );
    assert_eq!(
        ConsoleStatusReporter::log_level(DiagnosticSeverity::Information),
        Some(LogLevel::Info)
    );
    assert_eq!(ConsoleStatusReporter::log_level(DiagnosticSeverity::Hint), None);
    let noop = NoopStatusReporter;
    noop.build_starts();
    noop.build_completes(&vec![]);
    noop.build_errors(&Error::Cancelled);
}

#[test]
fn a_build_is_waited_for_until_it_ends() {
    let mut status = BuildStatus::new();
    assert!(status.must_wait_for_idle());
    assert_eq!(status.build_completed(), BuildStatusAction::NotifyWaiters);
    assert!(!status.must_wait_for_idle());
    assert_eq!(status.changes_pending(), BuildStatusAction::Nothing);
    assert!(status.must_wait_for_idle());
    assert_eq!(status.no_pending_changes(), BuildStatusAction::NotifyWaiters);
    assert!(!status.must_wait_for_idle());
    assert_eq!(
        status.on(BuildStatusEvent::ChangesPending),
        (BuildStatus { is_building: true }, BuildStatusAction::Nothing)
    );
    assert_eq!(BuildStatus::default(), BuildStatus::new());
}

#[test]
fn paths_are_written_with_slashes() {
    assert_eq!(format_normalized_path("a\\b\\c.js", '\\'), "a/b/c.js");
    assert_eq!(format_normalized_path("a/b/c.js", '/'), "a/b/c.js");
    assert_eq!(format_normalized_path("\\a\\\\b\\", '\\'), "/a//b/");
    assert_eq!(format_normalized_path("", '\\'), "");
    assert_eq!(format_normalized_path("a\\b", '/'), "a\\b");
}

fn file(path: &str, content: &str) -> FixtureFile {
    FixtureFile {
        path: path.to_string(),
        content: content.to_string(),
    }
}

#[test]
fn a_fixture_text_is_read() {
    let parsed = parse_fixture(
        "//- foo.js\ncontent of foo\nsecond line\n//- dir/bar.js  \r\n\n//-++ foo.js\nupdated\n//-xx gone.js\nstray\n//-++   //-++ baz.js\nlast",
    );
    assert_eq!(
        parsed.files,
        vec![
            file("foo.js", "content of foo\nsecond line"),
            file("dir/bar.js", ""),
        ]
    );
    assert_eq!(
        parsed.file_changes,
        vec![file("foo.js", "updated"), file("//-++ baz.js", "stray\nlast")]
    );
    assert_eq!(parsed.file_deletions, vec!["gone.js".to_string()]);

    let empty = parse_fixture("");
    assert!(empty.files.is_empty() && empty.file_changes.is_empty());
    let headless = parse_fixture("no header\n");
    assert!(headless.files.is_empty() && headless.file_deletions.is_empty());
    assert_eq!(
        parse_fixture("lead\n//- a\nbody\r").files,
        vec![file("a", "lead\nbody\r")]
    );
    assert_eq!(
        parse_fixture("//- //- //- a\n").files,
        vec![file("a", "")]
    );
}

#[test]
fn a_fixture_is_written() {
    let files = vec![file("a.js", "one"), file("b.js", "two\nlines")];
    let changes = vec![
        FixtureChange {
            path: "a.js".to_string(),
            change: FileChange::Change("changed".to_string()),
        },
        FixtureChange {
            path: "b.js".to_string(),
            change: FileChange::Delete,
        },
    ];
    assert_eq!(
        serialize_changes(&changes),
        "//-++ a.js\nchanged\n//-xx b.js\n"
    );
    let text = serialize(&files, &changes);
    assert_eq!(
        text,
        "//- a.js\none\n//- b.js\ntwo\nlines\n//-++ a.js\nchanged\n//-xx b.js\n"
    );
    let parsed = parse_fixture(&text);
    assert_eq!(parsed.files, files);
    assert_eq!(parsed.file_changes, vec![file("a.js", "changed")]);
    assert_eq!(parsed.file_deletions, vec!["b.js".to_string()]);
    assert_eq!(FileChange::Delete.content(), None);
    assert_eq!(
        FileChange::Change("x".to_string()).content(),
        Some(&"x".to_string())
    );
    assert!(FileChange::Delete.is_delete());
}

fn argument(argument_name: &str, value: Value) -> Argument {
    Argument {
        span: Span::new(0, 0),
        name: name(0, argument_name),
        value,
    }
}

#[test]
fn null_arguments_are_left_out() {
    let null = || Value::Constant(ConstantValue::Null { span: Span::new(1, 5) });
    let one = || {
        Value::Constant(ConstantValue::Int {
            span: Span::new(1, 2),
            text: "1".to_string(),
        })
    };
    let variable = || {
        Value::Variable(VariableIdentifier {
            span: Span::new(1, 3),
            name: "x".to_string(),
        })
    };
    let mut transform = SkipNullArgumentsTransform;
    assert_eq!(
        transform.transform_argument(&argument("a", null())),
        Transformed::Delete
    );
    assert_eq!(
        transform.transform_argument(&argument("a", one())),
        Transformed::Keep
    );
    assert_eq!(
        transform.transform_argument(&argument(
            "a",
            Value::List {
                span: Span::new(0, 6),
                items: vec![null()]
            }
        )),
        Transformed::Keep
    );
    let kept = skip_null_arguments(vec![
        argument("a", null()),
        argument("b", one()),
        argument("c", null()),
        argument("d", variable()),
        argument("e", null()),
    ]);
    assert_eq!(kept, vec![argument("b", one()), argument("d", variable())]);
    assert!(skip_null_arguments(vec![]).is_empty());
}

fn usage(
    fragment_name: Option<&str>,
    existing_fragment: Option<Location>,
    module_name: Option<&str>,
) -> ReturnFragmentUse {
    ReturnFragmentUse {
        location: at(10, 20),
        fragment_name: fragment_name.map(|text| text.to_string()),
        existing_fragment,
        module_name: module_name.map(|text| text.to_string()),
    }
}

fn problem(message: ValidationMessage, existing_fragment: Option<Location>) -> ValidationDiagnostic {
    ValidationDiagnostic {
        message,
        location: at(10, 20),
        existing_fragment,
    }
}

#[test]
fn return_fragments_are_held_to_their_rules() {
    assert!(is_valid_identifier("UserFragment_1"));
    assert!(is_valid_identifier("_a"));
    assert!(!is_valid_identifier(""));
    assert!(!is_valid_identifier("1a"));
    assert!(!is_valid_identifier("a b"));
    assert!(!is_valid_identifier(" a"));
    assert!(!is_valid_identifier("a-b"));

    let fine = usage(Some("UserCard_name"), None, Some("UserCard"));
    assert_eq!(shadow_resolvers_transform(&vec![fine.clone()], true), Ok(()));
    assert_eq!(shadow_resolvers_transform(&vec![], false), Ok(()));
    assert_eq!(
        shadow_resolvers_transform(&vec![fine.clone()], false),
        Err(vec![problem(
            ValidationMessage::ReturnFragmentRequiresFeatureFlag,
            None
        )])
    );
    assert_eq!(
        shadow_resolvers_transform(
            &vec![
                usage(Some("not a name"), Some(at(1, 2)), Some("UserCard")),
                usage(None, Some(at(1, 2)), Some("UserCard")),
                fine,
                usage(Some("Other_name"), Some(at(30, 40)), Some("UserCard")),
                usage(Some("Other_name"), None, None),
            ],
            true
        ),
        Err(vec![
            problem(
                ValidationMessage::ReturnFragmentInvalidName {
                    name: "not a name".to_string()
                },
                None
            ),
            problem(
                ValidationMessage::ReturnFragmentConflictsWithExistingFragment {
                    name: "Other_name".to_string()
                },
                Some(at(30, 40))
            ),
            problem(
                ValidationMessage::ReturnFragmentInvalidModuleName {
                    module_name: "UserCard".to_string(),
                    fragment_name: "Other_name".to_string()
                },
                None
            ),
        ])
    );
}

fn populated(key_start: u32, value_start: u32, value: &str) -> IrField {
    IrField::new(
        at(key_start, key_start + 5),
        Some(LocatedString::new(
            at(value_start, value_start + value.len() as u32),
            value.to_string(),
        )),
    )
}

fn docblock(entries: Vec<(AllowedFieldName, IrField)>) -> UntypedDocblockRepresentation {
    let mut fields = FieldMap::new();
    for (field_name, field) in entries {
        fields.insert(field_name, field);
    }
    UntypedDocblockRepresentation {
        description: None,
        fields,
        source_hash: ResolverSourceHash::new("h".to_string()),
    }
}

#[test]
fn a_cursor_is_on_a_part_of_the_docblock() {
    let disabled = FeatureFlag::Disabled;
    let parse_options = ParseOptions {
        enable_interface_output_type: &disabled,
        allow_resolver_non_nullable_return_type: &disabled,
        allow_legacy_relay_resolver_tag: &disabled,
    };
    let definitions = vec![ExecutableDefinition::Fragment(FragmentDefinition {
        location: at(300, 400),
        name: name(309, "userFragment"),
        type_condition: TypeCondition {
            span: Span::new(322, 329),
            type_: name(325, "User"),
        },
        directives: vec![],
    })];
    let resolved = parse_docblock_ir(
        &ProjectName::Default,
        docblock(vec![
            (
                AllowedFieldName::RelayFieldField,
                populated(10, 20, "User.avatar(size: Int): [Image]"),
            ),
            (AllowedFieldName::RootFragmentField, populated(60, 70, "userFragment")),
            (AllowedFieldName::DeprecatedField, populated(90, 100, "old")),
        ]),
        Some(&definitions),
        &parse_options,
        at(0, 200),
    )
    .unwrap()
    .unwrap();
    let info = |start: u32, end: u32| create_docblock_resolution_info(&resolved, Span::new(start, end));
    assert_eq!(info(21, 21), Some(DocblockResolutionInfo::Type("User".to_string())));
    assert_eq!(info(45, 46), Some(DocblockResolutionInfo::Type("Image".to_string())));
    assert_eq!(
        info(70, 82),
        Some(DocblockResolutionInfo::RootFragment("userFragment".to_string()))
    );
    assert_eq!(
        info(25, 31),
        Some(DocblockResolutionInfo::FieldName("avatar".to_string()))
    );
    assert_eq!(info(32, 36), Some(DocblockResolutionInfo::FieldArgumentName));
    assert_eq!(info(90, 92), Some(DocblockResolutionInfo::Deprecated));
    assert_eq!(info(38, 41), None);
    assert_eq!(info(150, 151), None);

    let a_type = parse_docblock_ir(
        &ProjectName::Default,
        docblock(vec![
            (AllowedFieldName::RelayTypeField, populated(10, 20, "User")),
            (AllowedFieldName::DeprecatedField, populated(90, 100, "old")),
        ]),
        None,
        &parse_options,
        at(0, 200),
    )
    .unwrap()
    .unwrap();
    assert_eq!(
        create_docblock_resolution_info(&a_type, Span::new(20, 24)),
        Some(DocblockResolutionInfo::Type("User".to_string()))
    );
    assert_eq!(
        create_docblock_resolution_info(&a_type, Span::new(94, 95)),
        Some(DocblockResolutionInfo::Deprecated)
    );
    assert_eq!(create_docblock_resolution_info(&a_type, Span::new(19, 24)), None);
}

fn fragment_with(value: Value) -> Vec<ExecutableDefinition> {
    vec![ExecutableDefinition::Fragment(FragmentDefinition {
        location: at(300, 400),
        name: name(309, "userFragment"),
        type_condition: TypeCondition {
            span: Span::new(322, 329),
            type_: name(325, "User"),
        },
        directives: vec![Directive {
            span: Span::new(330, 360),
            name: name(331, "argumentDefinitions"),
            arguments: Some(ArgumentList {
                span: Span::new(350, 360),
                items: vec![argument("size", value)],
            }),
        }],
    })]
}

#[test]
fn a_docblock_is_readable_where_its_parts_are() {
    let terse = |root: &str| {
        docblock(vec![
            (AllowedFieldName::RelayFieldField, populated(10, 20, "User.name: String")),
            (AllowedFieldName::RootFragmentField, populated(60, 70, root)),
        ])
    };
    let no_object = fragment_with(Value::Constant(ConstantValue::Int {
        span: Span::new(0, 1),
        text: "1".to_string(),
    }));
    let no_type = fragment_with(Value::Constant(ConstantValue::Object {
        span: Span::new(0, 1),
        fields: vec![ConstantArgument {
            span: Span::new(0, 1),
            name: name(0, "defaultValue"),
            value: ConstantValue::Null { span: Span::new(0, 1) },
        }],
    }));
    let well_formed = fragment_with(Value::Constant(ConstantValue::Object {
        span: Span::new(0, 1),
        fields: vec![ConstantArgument {
            span: Span::new(0, 1),
            name: name(0, "type"),
            value: ConstantValue::String(StringNode {
                span: Span::new(0, 5),
                value: "Int".to_string(),
            }),
        }],
    }));
    assert!(is_docblock_readable(&terse("userFragment"), Some(&well_formed)));
    assert!(!is_docblock_readable(&terse("userFragment"), Some(&no_object)));
    assert!(!is_docblock_readable(&terse("userFragment"), Some(&no_type)));
    assert!(is_docblock_readable(&terse("otherFragment"), Some(&no_object)));
    assert!(is_docblock_readable(&terse("userFragment"), None));
    assert!(is_docblock_readable(&docblock(vec![]), Some(&no_object)));
    assert!(is_docblock_readable(
        &docblock(vec![
            (AllowedFieldName::RelayTypeField, populated(10, 20, "User")),
            (AllowedFieldName::RootFragmentField, populated(60, 70, "userFragment")),
        ]),
        Some(&no_object)
    ));
    let far = docblock(vec![(
        AllowedFieldName::RelayTypeField,
        IrField::new(
            at(10, 15),
            Some(LocatedString::new(
                at(u32::MAX - 2, u32::MAX),
                "User".to_string(),
            )),
        ),
    )]);
    assert!(!is_docblock_readable(&far, None));

    let disabled = FeatureFlag::Disabled;
    let parse_options = ParseOptions {
        enable_interface_output_type: &disabled,
        allow_resolver_non_nullable_return_type: &disabled,
        allow_legacy_relay_resolver_tag: &disabled,
    };
    assert_eq!(
        try_parse_docblock_ir(&ProjectName::Default, far, None, &parse_options, at(0, 9)),
        None
    );
    assert_eq!(
        try_parse_docblock_ir(
            &ProjectName::Default,
            terse("userFragment"),
            Some(&no_type),
            &parse_options,
            at(0, 9)
        ),
        None
    );
    let read = try_parse_docblock_ir(
        &ProjectName::Default,
        terse("userFragment"),
        Some(&well_formed),
        &parse_options,
        at(0, 9),
    );
    assert!(matches!(read, Some(Ok(Some(_)))));
    assert_eq!(
        try_parse_docblock_ir(&ProjectName::Default, docblock(vec![]), None, &parse_options, at(0, 9)),
        Some(Ok(None))
    );
}

fn files_of(fixture: &ProjectFixture) -> Vec<(String, String)> {
    let mut files: Vec<(String, String)> = fixture
        .files()
        .iter()
        .map(|(path, content)| (path.clone(), content.clone()))
        .collect();
    files.sort();
    files
}

fn changes_of(
    fixture: &ProjectFixture,
) -> Vec<(String, FileChange)> {
    let mut changes: Vec<(String, FileChange)> = fixture
        .file_changes()
        .iter()
        .map(|(path, change)| (path.clone(), change.clone()))
        .collect();
    changes.sort_by(|left, right| left.0.cmp(&right.0));
    changes
}

fn pair(path: &str, content: &str) -> (String, String) {
    (path.to_string(), content.to_string())
}

fn change(path: &str, content: Option<&str>) -> (String, FileChange) {
    (
        path.to_string(),
        match content {
            Some(content) => FileChange::Change(content.to_string()),
            None => FileChange::Delete,
        },
    )
}

const FIXTURE: &str = "//- b/two.js\ntwo\n//- a-one.js\none\nmore\n//- a/one.js\nfirst\n//- a/one.js\nsecond\n//-++ b/two.js\nTWO\n//-++ new.js\nnew\n//-xx a-one.js\n//-xx new.js\n//-++ new.js\nnewer\n";

#[test]
fn a_project_fixture_is_read_into_maps() {
    let fixture = ProjectFixture::deserialize(FIXTURE);
    assert_eq!(
        files_of(&fixture),
        vec![
            pair("a-one.js", "one\nmore"),
            pair("a/one.js", "second"),
            pair("b/two.js", "two"),
        ]
    );
    assert_eq!(
        changes_of(&fixture),
        vec![
            change("a-one.js", None),
            change("b/two.js", Some("TWO")),
            change("new.js", None),
        ]
    );
    let empty = ProjectFixture::deserialize("");
    assert!(empty.files().is_empty());
    assert!(empty.file_changes().is_empty());
    assert_eq!(empty.serialize(), "");
}

#[test]
fn a_project_fixture_is_written_in_the_order_of_its_paths() {
    let fixture = ProjectFixture::deserialize(FIXTURE);
    assert_eq!(
        fixture.serialize_changes(),
        "//-xx a-one.js\n//-++ b/two.js\nTWO\n//-xx new.js\n"
    );
    assert_eq!(
        fixture.serialize(),
        "//- a-one.js\none\nmore\n//- a/one.js\nsecond\n//- b/two.js\ntwo\n//-xx a-one.js\n//-++ b/two.js\nTWO\n//-xx new.js\n"
    );
    let again = ProjectFixture::deserialize(&fixture.serialize());
    assert_eq!(files_of(&again), files_of(&fixture));
    assert_eq!(changes_of(&again), changes_of(&fixture));
    let many = ProjectFixture::deserialize(
        "//- z\n1\n//- B\n2\n//- a\n3\n//- Z\n4\n//- aa\n5\n//- \n6\n//- a.b\n7\n",
    );
    assert_eq!(
        many.serialize(),
        "//- \n6\n//- B\n2\n//- Z\n4\n//- a\n3\n//- a.b\n7\n//- aa\n5\n//- z\n1\n"
    );
}

#[test]
fn changes_are_applied_to_the_files() {
    let mut fixture = ProjectFixture::deserialize(FIXTURE);
    fixture.add_file_change("added.js".to_string(), FileChange::Change("added".to_string()));
    fixture.add_file_change("a/one.js".to_string(), FileChange::Delete);
    fixture.add_file_change("b/two.js".to_string(), FileChange::Change("again".to_string()));
    assert_eq!(
        changes_of(&fixture),
        vec![
            change("a-one.js", None),
            change("a/one.js", None),
            change("added.js", Some("added")),
            change("b/two.js", Some("again")),
            change("new.js", None),
        ]
    );
    let applied = fixture.with_file_changes_applied();
    assert_eq!(
        files_of(&applied),
        vec![pair("added.js", "added"), pair("b/two.js", "again")]
    );
    assert!(applied.file_changes().is_empty());
    assert_eq!(files_of(&fixture).len(), 3);
}

#[test]
fn changes_are_found_between_two_fixtures() {
    let known = ProjectFixture::deserialize(
        "//- same.js\nsame\n//- changed.js\nold\n//- gone.js\ngone\n//- ../outside.js\nout\n//- ..\nup\n//- ..inside.js\nin\n",
    );
    let current = ProjectFixture::deserialize(
        "//- same.js\nsame\n//- changed.js\nnew\n//- added.js\nadded\n//-++ ignored.js\nignored\n",
    );
    let between = known.with_changes_from(&current);
    assert_eq!(files_of(&between), files_of(&known));
    assert_eq!(
        changes_of(&between),
        vec![
            change("..inside.js", None),
            change("added.js", Some("added")),
            change("changed.js", Some("new")),
            change("gone.js", None),
        ]
    );
    assert_eq!(
        files_of(&between.with_file_changes_applied()),
        vec![
            pair("..", "up"),
            pair("../outside.js", "out"),
            pair("added.js", "added"),
            pair("changed.js", "new"),
            pair("same.js", "same"),
        ]
    );
}

#[test]
fn files_are_taken_out_of_a_fixture() {
    let mut fixture = ProjectFixture::deserialize(FIXTURE);
    let other = ProjectFixture::deserialize("//- a/one.js\nother content\n//- unknown.js\nx\n");
    fixture.remove_files(other);
    assert_eq!(
        files_of(&fixture),
        vec![pair("a-one.js", "one\nmore"), pair("b/two.js", "two")]
    );
    assert_eq!(changes_of(&fixture).len(), 3);
    fixture.remove_files_by_keys(&vec![
        "b/two.js".to_string(),
        "missing.js".to_string(),
        "b/two.js".to_string(),
    ]);
    assert_eq!(files_of(&fixture), vec![pair("a-one.js", "one\nmore")]);
    let rebuilt = ProjectFixture::new(
        fixture.files().clone(),
        fixture.file_changes().clone(),
    );
    assert_eq!(rebuilt.serialize(), fixture.serialize());
}
