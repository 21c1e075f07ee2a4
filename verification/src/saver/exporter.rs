//! The report as JSON and as CSV.

use vstd::prelude::*;
use vstd::string::StringExecFns;
use crate::langs::registry::{display_name, label_of};
use crate::report::{entries_of, LineOrder, Report, Totals};
use crate::stats::{LangStat, Tally};
use crate::utils::format::OutputFormat;
use crate::utils::strings::{decimal, usize_to_string};
use super::json::{error_text, pretty_json, write_pretty, DocModel, JsonDoc, JsonRecord, RecordModel};
use super::save_error::SaveError;

verus! {

/// A way to write a report out as text.
pub trait ReportExporter {
    /// The text of `report` in the exporter's format.
    fn export(&self, report: &Report) -> (r: Result<String, SaveError>)
        requires
            report.wf(),
    ;
}

/// The first line of a CSV report.
pub open spec fn csv_header() -> Seq<char> {
    "Language,Files,Lines,Code,Comments,Blanks,Functions,Classes\n"@
}

/// The six numbers of a CSV line, each behind a comma.
#[verifier::opaque]
pub open spec fn csv_numbers(t: Tally) -> Seq<char> {
    ","@ + decimal(t.files) + ","@ + decimal(t.counts.lines) + ","@ + decimal(t.counts.code) + ","@
        + decimal(t.counts.comments) + ","@ + decimal(t.counts.blanks) + ","@ + decimal(
        t.counts.functions,
    ) + "\n"@
}

/// The lines of the languages `rows`.
pub open spec fn csv_rows(rows: Seq<LangStat>) -> Seq<char>
    decreases rows.len(),
{
    if rows.len() == 0 {
        Seq::empty()
    } else {
        csv_rows(rows.drop_last()) + csv_line(rows.last())
    }
}

/// A CSV report: the header, one line for each of `rows`, a line of commas,
/// and the line of the totals.
pub open spec fn csv_document(rows: Seq<LangStat>, totals: Tally) -> Seq<char> {
    csv_header() + csv_rows(rows) + csv_footer(totals)
}

/// The JSON object of a language.
pub open spec fn json_row(row: LangStat) -> RecordModel {
    RecordModel {
        text_keys: seq!["language"@],
        texts: seq![label_of(row.lang)],
        number_keys: number_keys(),
        numbers: seq![
            row.files,
            row.lines,
            row.code,
            row.comments,
            row.blanks,
            row.functions,
            row.classes,
        ],
    }
}

/// The names of the counters in a JSON report.
pub open spec fn number_keys() -> Seq<Seq<char>> {
    seq!["files"@, "lines"@, "code"@, "comments"@, "blanks"@, "functions"@, "classes"@]
}

/// The JSON object of the totals.
pub open spec fn json_totals(t: Totals) -> RecordModel {
    RecordModel {
        text_keys: Seq::empty(),
        texts: Seq::empty(),
        number_keys: number_keys(),
        numbers: seq![t.files, t.lines, t.code, t.comments, t.blanks, t.functions, t.classes],
    }
}

/// The JSON document of a report: the languages `rows` under `languages`,
/// the totals under `total`.
pub open spec fn json_document(rows: Seq<LangStat>, totals: Totals) -> DocModel {
    DocModel {
        list_key: "languages"@,
        list: Seq::new(rows.len(), |i: int| json_row(rows[i])),
        record_key: "total"@,
        record: json_totals(totals),
    }
}

/// Whether `text` is the CSV report of `report`: its languages, those with
/// the most lines first, and its totals.
pub open spec fn is_csv_of(report: &Report, text: Seq<char>) -> bool {
    exists|rows: Seq<LangStat>|
        #![trigger report.lists(rows, LineOrder::Descending)]
        report.lists(rows, LineOrder::Descending) && text == csv_document(
            rows,
            report.spec_totals(),
        )
}

/// Whether `text` is the JSON report of `report`, as `serde_json` writes
/// the document of its languages, those with the most lines first, and of
/// its totals.
pub open spec fn is_json_of(report: &Report, text: Seq<char>) -> bool {
    exists|rows: Seq<LangStat>|
        report.lists(rows, LineOrder::Descending) && text == pretty_json(
            json_document(rows, #[trigger] totals_of(rows, report)),
        )
}

/// Whether `r` is the export of `report` in the format `format`: a report
/// has no export as plain text, its CSV text is always had, and its JSON
/// text unless `serde_json` reports an error.
pub open spec fn is_export_of(
    report: &Report,
    format: OutputFormat,
    r: Result<String, SaveError>,
) -> bool {
    match format {
        OutputFormat::Text => r matches Err(e) && e is UnsupportedFormat,
        OutputFormat::Csv => r matches Ok(s) && is_csv_of(report, s@),
        OutputFormat::Json => match r {
            Ok(s) => is_json_of(report, s@),
            Err(e) => e is Json,
        },
    }
}

/// Writes a report as JSON.
#[derive(Debug, Clone, Copy)]
pub struct JsonExporter;

/// Writes a report as CSV.
#[derive(Debug, Clone, Copy)]
pub struct CsvExporter;

/// The JSON object with the seven counters.
fn counters(
    record: JsonRecord,
    files: usize,
    lines: usize,
    code: usize,
    comments: usize,
    blanks: usize,
    functions: usize,
    classes: usize,
) -> (r: JsonRecord)
    requires
        record.number_keys@.len() == 0,
        record.numbers@.len() == 0,
        record.text_keys@.len() == record.texts@.len(),
    ensures
        r@ == (RecordModel {
            number_keys: number_keys(),
            numbers: seq![files, lines, code, comments, blanks, functions, classes],
            ..record@
        }),
{
    let r = record.number("files", files).number("lines", lines).number("code", code).number(
        "comments",
        comments,
    ).number("blanks", blanks).number("functions", functions).number("classes", classes);
    assert(r@.number_keys =~= number_keys());
    assert(r@.numbers =~= seq![files, lines, code, comments, blanks, functions, classes]);
    r
}

impl JsonExporter {
    pub fn new() -> Self {
        JsonExporter
    }

    /// The document of `report`: its languages, those with the most lines
    /// first, and its totals.
    pub fn document(&self, report: &Report) -> (doc: JsonDoc)
        requires
            report.wf(),
        ensures
            exists|rows: Seq<LangStat>|
                report.lists(rows, LineOrder::Descending) && doc@ == json_document(
                    rows,
                    #[trigger] totals_of(rows, report),
                ),
    {
        let items: Vec<&LangStat> = report.sort_stats(LineOrder::Descending);
        let ghost rows = entries_of(items@);
        let mut list: Vec<JsonRecord> = Vec::new();
        let mut i: usize = 0;
        while i < items.len()
            invariant
                i <= items@.len(),
                rows == entries_of(items@),
                list@.len() == i,
                forall|j: int| 0 <= j < i ==> (#[trigger] list@[j])@ == json_row(rows[j]),
            decreases items@.len() - i,
        {
            let stat: &LangStat = items[i];
            let record = JsonRecord::new().text("language", display_name(&stat.lang));
            let record = counters(
                record,
                stat.files,
                stat.lines,
                stat.code,
                stat.comments,
                stat.blanks,
                stat.functions,
                stat.classes,
            );
            assert(record@ == json_row(rows[i as int])) by {
                assert(record@.text_keys =~= seq!["language"@]);
                assert(record@.texts =~= seq![label_of(stat.lang)]);
            }
            list.push(record);
            i = i + 1;
        }
        let t: Totals = report.totals();
        let total = counters(
            JsonRecord::new(),
            t.files,
            t.lines,
            t.code,
            t.comments,
            t.blanks,
            t.functions,
            t.classes,
        );
        let doc = JsonDoc {
            list_key: "languages".to_owned(),
            list,
            record_key: "total".to_owned(),
            record: total,
        };
        proof {
            assert(doc@.list =~= json_document(rows, t).list);
            assert(totals_of(rows, report) == t);
            assert(doc@ == json_document(rows, totals_of(rows, report)));
        }
        doc
    }

    /// The report as JSON text, as `serde_json` writes its document.
    pub fn format_as_json(&self, report: &Report) -> (r: Result<String, SaveError>)
        requires
            report.wf(),
        ensures
            is_export_of(report, OutputFormat::Json, r),
    {
        let doc = self.document(report);
        match write_pretty(&doc) {
            Ok(s) => Ok(s),
            Err(e) => Err(SaveError::Json(error_text(&e))),
        }
    }
}

/// The totals of `report`, which belong to every listing `rows` of it.
pub open spec fn totals_of(rows: Seq<LangStat>, report: &Report) -> Totals {
    let t = report.spec_totals();
    Totals {
        files: t.files as usize,
        lines: t.counts.lines as usize,
        code: t.counts.code as usize,
        comments: t.counts.comments as usize,
        blanks: t.counts.blanks as usize,
        functions: t.counts.functions as usize,
        classes: t.counts.classes as usize,
    }
}

impl Default for JsonExporter {
    fn default() -> Self {
        JsonExporter
    }
}

impl ReportExporter for JsonExporter {
    fn export(&self, report: &Report) -> (r: Result<String, SaveError>)
        ensures
            is_export_of(report, OutputFormat::Json, r),
    {
        self.format_as_json(report)
    }
}

/// The six numbers of a CSV line as text.
fn numbers_text(t: &Totals) -> (r: String)
    ensures
        r@ == csv_numbers(t.tally()),
{
    reveal(csv_numbers);
    let mut out: String = String::new();
    out.append(",");
    out.append(usize_to_string(t.files).as_str());
    out.append(",");
    out.append(usize_to_string(t.lines).as_str());
    out.append(",");
    out.append(usize_to_string(t.code).as_str());
    out.append(",");
    out.append(usize_to_string(t.comments).as_str());
    out.append(",");
    out.append(usize_to_string(t.blanks).as_str());
    out.append(",");
    out.append(usize_to_string(t.functions).as_str());
    out.append("\n");
    assert(out@ =~= csv_numbers(t.tally()));
    out
}

/// The line of a language in a CSV report.
pub open spec fn csv_line(row: LangStat) -> Seq<char> {
    label_of(row.lang) + csv_numbers(row.tally())
}

/// The line of a language in a CSV report.
fn line_text(stat: &LangStat) -> (r: String)
    ensures
        r@ == csv_line(*stat),
{
    let t = Totals {
        files: stat.files,
        lines: stat.lines,
        code: stat.code,
        comments: stat.comments,
        blanks: stat.blanks,
        functions: stat.functions,
        classes: stat.classes,
    };
    let numbers: String = numbers_text(&t);
    String::from_str(display_name(&stat.lang)).concat(numbers.as_str())
}

/// The last lines of a CSV report: a line of commas and the totals.
pub open spec fn csv_footer(totals: Tally) -> Seq<char> {
    ",,,,,,,,\n"@ + "Total"@ + csv_numbers(totals)
}

/// The last lines of a CSV report.
fn footer_text(t: &Totals) -> (r: String)
    ensures
        r@ == csv_footer(t.tally()),
{
    let numbers: String = numbers_text(t);
    String::from_str(",,,,,,,,\n").concat("Total").concat(numbers.as_str())
}

impl CsvExporter {
    pub fn new() -> Self {
        CsvExporter
    }

    /// The report as CSV text: a header, the languages, those with the most
    /// lines first, a line of commas, and the totals.
    pub fn format_as_csv(&self, report: &Report) -> (r: Result<String, SaveError>)
        requires
            report.wf(),
        ensures
            is_export_of(report, OutputFormat::Csv, r),
    {
        let items: Vec<&LangStat> = report.sort_stats(LineOrder::Descending);
        let ghost rows = entries_of(items@);
        let mut body: String = String::new();
        let mut i: usize = 0;
        assert(rows.take(0) =~= Seq::<LangStat>::empty());
        while i < items.len()
            invariant
                i <= items@.len(),
                rows == entries_of(items@),
                body@ == csv_rows(rows.take(i as int)),
            decreases items@.len() - i,
        {
            let line: String = line_text(items[i]);
            proof {
                assert(rows.take(i + 1).drop_last() =~= rows.take(i as int));
                assert(rows.take(i + 1).last() == *items@[i as int]);
            }
            body.append(line.as_str());
            i = i + 1;
        }
        assert(rows.take(items@.len() as int) =~= rows);
        let t: Totals = report.totals();
        let footer: String = footer_text(&t);
        let out: String = String::from_str(
            "Language,Files,Lines,Code,Comments,Blanks,Functions,Classes\n",
        ).concat(body.as_str()).concat(footer.as_str());
        Ok(out)
    }
}

impl Default for CsvExporter {
    fn default() -> Self {
        CsvExporter
    }
}

impl ReportExporter for CsvExporter {
    fn export(&self, report: &Report) -> (r: Result<String, SaveError>)
        ensures
            is_export_of(report, OutputFormat::Csv, r),
    {
        self.format_as_csv(report)
    }
}

} // verus!
