//! What a build reports, and how the reports of a failed build are worded.
//!
//! Printing a diagnostic needs the text of its source; that is done
//! before this module is asked. It takes the printed diagnostics and
//! decides what is reported, under which severity and in which words.

use vstd::prelude::*;
use vstd::string::StringExecFns;
use crate::errors::Diagnostic;

verus! {

/// The path type of the standard library, carried through as it is.
#[verifier::external_type_specification]
#[verifier::external_body]
pub struct ExPathBuf(std::path::PathBuf);

/// How much a diagnostic matters.
#[derive(Clone, Copy, Debug, PartialEq, Eq, Hash, Structural)]
pub enum DiagnosticSeverity {
    Error,
    Warning,
    Information,
    Hint,
}

/// A diagnostic as printed, with its severity.
#[derive(Clone, Debug, PartialEq, Eq)]
pub struct PrintedDiagnostic {
    pub severity: DiagnosticSeverity,
    pub output: String,
}

/// Why the build of one project failed.
#[derive(Clone, Debug, PartialEq, Eq)]
pub enum BuildProjectError {
    /// The project's documents did not pass validation.
    ValidationErrors { errors: Vec<PrintedDiagnostic>, project_name: String },
    /// Operations could not be persisted; each error as printed.
    PersistErrors { errors: Vec<String>, project_name: String },
    /// Any other failure, as printed.
    Other { message: String },
}

/// Why a build failed.
#[derive(Clone, Debug, PartialEq, Eq)]
pub enum Error {
    DiagnosticsError { errors: Vec<PrintedDiagnostic> },
    BuildProjectsErrors { errors: Vec<BuildProjectError> },
    /// New changes came in while the build ran.
    Cancelled,
    /// Any other failure, as printed.
    Other { message: String },
}

/// A line of a report: its severity and its text.
#[derive(Clone, Debug, PartialEq, Eq)]
pub struct Report {
    pub severity: DiagnosticSeverity,
    pub message: String,
}

pub struct ReportView {
    pub severity: DiagnosticSeverity,
    pub message: Seq<char>,
}

impl DeepView for Report {
    type V = ReportView;

    open spec fn deep_view(&self) -> ReportView {
        ReportView { severity: self.severity, message: self.message@ }
    }
}

/// The report of a diagnostic that failed validation: an error is marked
/// as one, and where several projects are built the project is named.
pub open spec fn spec_validation_report(
    diagnostic: PrintedDiagnostic,
    project_name: Seq<char>,
    is_multi_project: bool,
) -> ReportView {
    ReportView {
        severity: diagnostic.severity,
        message: if diagnostic.severity == DiagnosticSeverity::Error {
            if is_multi_project {
                "Error in the project `"@ + project_name + "`: "@ + diagnostic.output@
            } else {
                "Error: "@ + diagnostic.output@
            }
        } else {
            if is_multi_project {
                "In the project `"@ + project_name + "`: "@ + diagnostic.output@
            } else {
                diagnostic.output@
            }
        },
    }
}

/// The report of an operation that could not be persisted.
pub open spec fn spec_persist_report(
    error: Seq<char>,
    project_name: Seq<char>,
    is_multi_project: bool,
) -> ReportView {
    ReportView {
        severity: DiagnosticSeverity::Error,
        message: if is_multi_project {
            "Error in the project `"@ + project_name + "`: "@ + error
        } else {
            "Error: "@ + error
        },
    }
}

/// The reports of the failed build of one project, in the order of its
/// errors.
pub open spec fn spec_format_project_error(is_multi_project: bool, error: BuildProjectError) -> Seq<
    ReportView,
> {
    match error {
        BuildProjectError::ValidationErrors { errors, project_name } => Seq::new(
            errors.len() as nat,
            |i: int| spec_validation_report(errors[i], project_name@, is_multi_project),
        ),
        BuildProjectError::PersistErrors { errors, project_name } => Seq::new(
            errors.len() as nat,
            |i: int| spec_persist_report(errors[i]@, project_name@, is_multi_project),
        ),
        BuildProjectError::Other { message } => seq![
            ReportView { severity: DiagnosticSeverity::Error, message: message@ },
        ],
    }
}

fn in_project(lead: &str, project_name: &str, output: &str) -> (text: String)
    ensures
        text@ == lead@ + project_name@ + "`: "@ + output@,
{
    let mut text = String::from_str(lead);
    text.append(project_name);
    text.append("`: ");
    text.append(output);
    text
}

/// Words the reports of the failed build of one project.
pub fn format_project_error(is_multi_project: bool, error: &BuildProjectError) -> (reports: Vec<
    Report,
>)
    ensures
        reports.deep_view() == spec_format_project_error(is_multi_project, *error),
{
    let mut reports: Vec<Report> = Vec::new();
    match error {
        BuildProjectError::ValidationErrors { errors, project_name } => {
            let mut i: usize = 0;
            while i < errors.len()
                invariant
                    i <= errors.len(),
                    reports.len() == i,
                    forall|j: int|
                        0 <= j < i ==> reports[j].deep_view() == spec_validation_report(
                            errors[j],
                            project_name@,
                            is_multi_project,
                        ),
                decreases errors.len() - i,
            {
                let diagnostic = &errors[i];
                let message = match diagnostic.severity {
                    DiagnosticSeverity::Error => {
                        if is_multi_project {
                            in_project(
                                "Error in the project `",
                                project_name.as_str(),
                                diagnostic.output.as_str(),
                            )
                        } else {
                            String::from_str("Error: ").concat(diagnostic.output.as_str())
                        }
                    },
                    _ => {
                        if is_multi_project {
                            in_project(
                                "In the project `",
                                project_name.as_str(),
                                diagnostic.output.as_str(),
                            )
                        } else {
                            diagnostic.output.clone()
                        }
                    },
                };
                reports.push(Report { severity: diagnostic.severity, message });
                i += 1;
            }
            proof {
                assert(reports.deep_view() =~= spec_format_project_error(is_multi_project, *error));
            }
        },
        BuildProjectError::PersistErrors { errors, project_name } => {
            let mut i: usize = 0;
            while i < errors.len()
                invariant
                    i <= errors.len(),
                    reports.len() == i,
                    forall|j: int|
                        0 <= j < i ==> reports[j].deep_view() == spec_persist_report(
                            errors[j]@,
                            project_name@,
                            is_multi_project,
                        ),
                decreases errors.len() - i,
            {
                let message = if is_multi_project {
                    in_project("Error in the project `", project_name.as_str(), errors[i].as_str())
                } else {
                    String::from_str("Error: ").concat(errors[i].as_str())
                };
                reports.push(Report { severity: DiagnosticSeverity::Error, message });
                i += 1;
            }
            proof {
                assert(reports.deep_view() =~= spec_format_project_error(is_multi_project, *error));
            }
        },
        BuildProjectError::Other { message } => {
            reports.push(Report { severity: DiagnosticSeverity::Error, message: message.clone() });
            proof {
                assert(reports.deep_view() =~= spec_format_project_error(is_multi_project, *error));
            }
        },
    }
    reports
}

/// The reports of the first `count` failed projects, one project after
/// another.
pub open spec fn spec_project_reports(
    is_multi_project: bool,
    errors: Seq<BuildProjectError>,
    count: int,
) -> Seq<ReportView>
    decreases count,
{
    if count <= 0 {
        Seq::empty()
    } else {
        spec_project_reports(is_multi_project, errors, count - 1) + spec_format_project_error(
            is_multi_project,
            errors[count - 1],
        )
    }
}

/// The reports of a failed build: those of its errors, and a last line
/// that says that the build failed. A cancelled build reports only that
/// it was cancelled.
pub open spec fn spec_format_build_errors(is_multi_project: bool, error: Error) -> Seq<ReportView> {
    let failed = ReportView {
        severity: DiagnosticSeverity::Error,
        message: "Compilation failed."@,
    };
    match error {
        Error::DiagnosticsError { errors } => Seq::new(
            errors.len() as nat,
            |i: int| ReportView { severity: errors[i].severity, message: errors[i].output@ },
        ).push(failed),
        Error::BuildProjectsErrors { errors } => spec_project_reports(
            is_multi_project,
            errors@,
            errors.len() as int,
        ).push(failed),
        Error::Cancelled => seq![
            ReportView {
                severity: DiagnosticSeverity::Information,
                message: "Compilation cancelled due to new changes."@,
            },
        ],
        Error::Other { message } => seq![
            ReportView { severity: DiagnosticSeverity::Error, message: message@ },
            failed,
        ],
    }
}

/// Words the reports of a failed build.
pub fn format_build_errors(is_multi_project: bool, error: &Error) -> (messages: Vec<Report>)
    ensures
        messages.deep_view() == spec_format_build_errors(is_multi_project, *error),
{
    let mut messages: Vec<Report> = Vec::new();
    match error {
        Error::DiagnosticsError { errors } => {
            let mut i: usize = 0;
            while i < errors.len()
                invariant
                    i <= errors.len(),
                    messages.len() == i,
                    forall|j: int|
                        0 <= j < i ==> messages[j].deep_view() == (ReportView {
                            severity: errors[j].severity,
                            message: errors[j].output@,
                        }),
                decreases errors.len() - i,
            {
                messages.push(
                    Report { severity: errors[i].severity, message: errors[i].output.clone() },
                );
                i += 1;
            }
        },
        Error::BuildProjectsErrors { errors } => {
            let mut i: usize = 0;
            proof {
                assert(messages.deep_view() =~= Seq::empty());
            }
            while i < errors.len()
                invariant
                    i <= errors.len(),
                    messages.deep_view() == spec_project_reports(
                        is_multi_project,
                        errors@,
                        i as int,
                    ),
                decreases errors.len() - i,
            {
                let mut reports = format_project_error(is_multi_project, &errors[i]);
                let ghost before = messages;
                let ghost added = reports;
                messages.append(&mut reports);
                proof {
                    assert(messages.deep_view() =~= before.deep_view() + added.deep_view());
                }
                i += 1;
            }
        },
        Error::Cancelled => {
            messages.push(
                Report {
                    severity: DiagnosticSeverity::Information,
                    message: String::from_str("Compilation cancelled due to new changes."),
                },
            );
            proof {
                assert(messages.deep_view() =~= spec_format_build_errors(is_multi_project, *error));
            }
            return messages;
        },
        Error::Other { message } => {
            messages.push(Report { severity: DiagnosticSeverity::Error, message: message.clone() });
        },
    }
    messages.push(
        Report {
            severity: DiagnosticSeverity::Error,
            message: String::from_str("Compilation failed."),
        },
    );
    proof {
        assert(messages.deep_view() =~= spec_format_build_errors(is_multi_project, *error));
    }
    messages
}

/// Where a report goes.
#[derive(Clone, Copy, Debug, PartialEq, Eq, Structural)]
pub enum LogLevel {
    Error,
    Warn,
    Info,
}

/// Those who are told how a build goes.
pub trait StatusReporter {
    fn build_starts(&self);

    fn build_completes(&self, diagnostics: &Vec<Diagnostic>);

    fn build_errors(&self, error: &Error);
}

/// A reporter that reports nothing: it stands in while the real reporter
/// is being moved.
pub struct NoopStatusReporter;

impl StatusReporter for NoopStatusReporter {
    fn build_starts(&self) {
    }

    fn build_completes(&self, _diagnostics: &Vec<Diagnostic>) {
    }

    fn build_errors(&self, _error: &Error) {
    }
}

/// A reporter that writes to the console: it knows the root of the
/// project's files and whether several projects are built.
pub struct ConsoleStatusReporter {
    pub root_dir: std::path::PathBuf,
    pub is_multi_project: bool,
}

impl ConsoleStatusReporter {
    pub fn new(root_dir: std::path::PathBuf, is_multi_project: bool) -> (reporter: Self)
        ensures
            reporter.root_dir == root_dir,
            reporter.is_multi_project == is_multi_project,
    {
        Self { root_dir, is_multi_project }
    }

    /// Where a report of the given severity goes: errors and warnings to
    /// their levels, hints nowhere, all else to the information level.
    pub open spec fn spec_log_level(severity: DiagnosticSeverity) -> Option<LogLevel> {
        match severity {
            DiagnosticSeverity::Error => Some(LogLevel::Error),
            DiagnosticSeverity::Warning => Some(LogLevel::Warn),
            DiagnosticSeverity::Hint => None,
            DiagnosticSeverity::Information => Some(LogLevel::Info),
        }
    }

    pub fn log_level(severity: DiagnosticSeverity) -> (level: Option<LogLevel>)
        ensures
            level == Self::spec_log_level(severity),
    {
        match severity {
            DiagnosticSeverity::Error => Some(LogLevel::Error),
            DiagnosticSeverity::Warning => Some(LogLevel::Warn),
            DiagnosticSeverity::Hint => None,
            DiagnosticSeverity::Information => Some(LogLevel::Info),
        }
    }

    /// The reports of a failed build, worded for this reporter's setting.
    pub fn build_error_reports(&self, error: &Error) -> (messages: Vec<Report>)
        ensures
            messages.deep_view() == spec_format_build_errors(self.is_multi_project, *error),
    {
        format_build_errors(self.is_multi_project, error)
    }
}

} // verus!

verus! {

/// The line that reports a completed build, around its diagnostics as
/// JSON.
pub open spec fn spec_completed_line(diagnostics_json: Seq<char>) -> Seq<char> {
    "{\"completed\":true,\"diagnostics\":"@ + diagnostics_json + "}"@
}

/// The line that reports a failed build, around its error as JSON.
pub open spec fn spec_failed_line(error_json: Seq<char>) -> Seq<char> {
    "{\"completed\":false,\"error\":"@ + error_json + "}"@
}

/// Frames the diagnostics of a completed build, given as JSON, as the
/// line that a JSON reporter writes.
pub fn completed_line(diagnostics_json: &str) -> (line: String)
    ensures
        line@ == spec_completed_line(diagnostics_json@),
{
    let mut line = String::from_str("{\"completed\":true,\"diagnostics\":");
    line.append(diagnostics_json);
    line.append("}");
    line
}

/// Frames the error of a failed build, given as JSON, as the line that a
/// JSON reporter writes.
pub fn failed_line(error_json: &str) -> (line: String)
    ensures
        line@ == spec_failed_line(error_json@),
{
    let mut line = String::from_str("{\"completed\":false,\"error\":");
    line.append(error_json);
    line.append("}");
    line
}

} // verus!
