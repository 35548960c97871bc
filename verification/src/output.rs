//! The dry-run report: what a validation-only run found, assembled from
//! the generation counts, the diff against the existing output and the
//! type-checker findings.

use vstd::prelude::*;

use crate::generation::GenerationResult;
use crate::text::str_to_string;
use crate::validation::{DiffResult, TscResult, TscSeverity};

verus! {

/// The whole dry-run report.
#[derive(Debug, Clone, PartialEq, Eq)]
pub struct DryRunOutput {
    pub success: bool,
    pub router_count: usize,
    pub procedure_count: usize,
    pub diff: Option<DiffSummary>,
    pub validation_errors: Vec<ValidationError>,
    pub parse_errors: Vec<ParseError>,
}

/// The diff section of the report.
#[derive(Debug, Clone, PartialEq, Eq)]
pub struct DiffSummary {
    pub has_changes: bool,
    pub files_changed: usize,
    pub lines_added: usize,
    pub lines_removed: usize,
}

/// One type-checker finding of the report.
#[derive(Debug, Clone, PartialEq, Eq)]
pub struct ValidationError {
    pub file: String,
    pub line: usize,
    pub column: usize,
    pub code: String,
    pub message: String,
    pub severity: String,
}

/// One parse failure of the report.
#[derive(Debug, Clone, PartialEq, Eq)]
pub struct ParseError {
    pub file: String,
    pub line: Option<usize>,
    pub message: String,
}

/// Builds the dry-run report: the generation counts, a diff summary
/// counting one changed file when the text differs, the type-checker
/// findings with their severities rendered in lower case, and success
/// exactly when no finding is an error.
pub fn build_dry_run_output(
    generation_result: &GenerationResult,
    diff_result: &DiffResult,
    tsc_result: Option<&TscResult>,
) -> (r: DryRunOutput)
    ensures
        r.router_count == generation_result.router_count,
        r.procedure_count == generation_result.procedure_count,
        r.diff matches Some(d) && d.has_changes == diff_result.has_changes
            && d.lines_added == diff_result.lines_added && d.lines_removed
            == diff_result.lines_removed && d.files_changed == (if diff_result.has_changes {
            1int
        } else {
            0int
        }),
        r.parse_errors@.len() == 0,
        tsc_result is None ==> r.success && r.validation_errors@.len() == 0,
{
    let mut validation_errors: Vec<ValidationError> = Vec::new();
    let mut has_error_finding = false;
    match tsc_result {
        Some(result) => {
            let mut i: usize = 0;
            while i < result.errors.len()
                decreases result.errors@.len() - i,
            {
                let finding = &result.errors[i];
                let severity = match finding.severity {
                    TscSeverity::Error => {
                        has_error_finding = true;
                        str_to_string("error")
                    },
                    TscSeverity::Warning => str_to_string("warning"),
                };
                validation_errors.push(
                    ValidationError {
                        file: str_to_string(finding.file.as_str()),
                        line: finding.line,
                        column: finding.column,
                        code: str_to_string(finding.code.as_str()),
                        message: str_to_string(finding.message.as_str()),
                        severity,
                    },
                );
                i += 1;
            }
        },
        None => {},
    }

    DryRunOutput {
        success: !has_error_finding,
        router_count: generation_result.router_count,
        procedure_count: generation_result.procedure_count,
        diff: Some(
            DiffSummary {
                has_changes: diff_result.has_changes,
                files_changed: if diff_result.has_changes {
                    1
                } else {
                    0
                },
                lines_added: diff_result.lines_added,
                lines_removed: diff_result.lines_removed,
            },
        ),
        validation_errors,
        parse_errors: Vec::new(),
    }
}

} // verus!
