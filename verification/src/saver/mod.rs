use vstd::prelude::*;
use crate::report::Report;
use crate::utils::format::OutputFormat;

pub mod exporter;
pub mod json;
pub mod save_error;

verus! {

/// Chooses the exporter of a format.
pub struct FileSaver;

impl FileSaver {
    pub fn new() -> Self {
        FileSaver
    }

    /// The text that is saved for `report` in the format `format`. A report
    /// cannot be saved as plain text.
    pub fn render(report: &Report, format: OutputFormat) -> (r: Result<
        String,
        save_error::SaveError,
    >)
        requires
            report.wf(),
        ensures
            exporter::is_export_of(report, format, r),
    {
        match format {
            OutputFormat::Json => exporter::JsonExporter::new().format_as_json(report),
            OutputFormat::Csv => exporter::CsvExporter::new().format_as_csv(report),
            OutputFormat::Text => Err(save_error::SaveError::UnsupportedFormat),
        }
    }
}

} // verus!
