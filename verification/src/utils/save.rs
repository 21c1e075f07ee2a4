//! Shorthands for writing a report out.

use vstd::prelude::*;
use crate::report::Report;
use crate::saver::exporter::{is_export_of, CsvExporter, JsonExporter};
use crate::saver::save_error::SaveError;
use crate::saver::FileSaver;
use crate::utils::format::OutputFormat;

verus! {

/// The report as JSON text.
pub fn report_to_json(report: &Report) -> (r: Result<String, SaveError>)
    requires
        report.wf(),
    ensures
        is_export_of(report, OutputFormat::Json, r),
{
    JsonExporter::new().format_as_json(report)
}

/// The report as CSV text.
pub fn report_to_csv(report: &Report) -> (r: Result<String, SaveError>)
    requires
        report.wf(),
    ensures
        is_export_of(report, OutputFormat::Csv, r),
{
    CsvExporter::new().format_as_csv(report)
}

/// The text of the report in the format `format`, ready to be written to
/// any target. A report has no export as plain text.
pub fn export_report(report: &Report, format: OutputFormat) -> (r: Result<String, SaveError>)
    requires
        report.wf(),
    ensures
        is_export_of(report, format, r),
{
    FileSaver::render(report, format)
}

} // verus!
