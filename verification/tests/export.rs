use toukei::config::Config;
use toukei::cli::Cli;
use toukei::ffi::{FfiConfig, FfiResult};
use toukei::langs::lang_type::LangType;
use toukei::report::{Report, Totals};
use toukei::saver::exporter::{CsvExporter, JsonExporter, ReportExporter};
use toukei::saver::save_error::SaveError;
use toukei::saver::FileSaver;
use toukei::stats::FileStat;
use toukei::utils::format::OutputFormat;
use toukei::utils::save::{export_report, report_to_csv, report_to_json};

fn create_test_report() -> Report {
    let mut report = Report::new();

    let rust_stat = FileStat {
        lang: LangType::Rust,
        path: "test.rs".to_string(),
        name: "test.rs".to_string(),
        lines: 100,
        code: 80,
        comments: 10,
        blanks: 10,
        functions: 5,
        classes: 2,
    };

    let js_stat = FileStat {
        path: "test.js".to_string(),
        name: "test.js".to_string(),
        lang: LangType::Javascript,
        lines: 50,
        code: 40,
        comments: 5,
        blanks: 5,
        functions: 3,
        classes: 1,
    };

    report.add(rust_stat);
    report.add(js_stat);

    report
}

#[test]
fn test_json_conversion() {
    let report = create_test_report();
    let json_str = report_to_json(&report).unwrap();

    assert!(json_str.contains("languages"));
    assert!(json_str.contains("total"));
    assert!(json_str.contains("Rust"));
    assert!(json_str.contains("JavaScript"));
}

#[test]
fn test_csv_conversion() {
    let report = create_test_report();
    let csv_str = report_to_csv(&report).unwrap();

    assert!(csv_str.contains("Language,Files"));
    assert!(csv_str.contains("Rust"));
    assert!(csv_str.contains("JavaScript"));
    assert!(csv_str.contains("Total,"));
}

#[test]
fn test_ffi_config_to_config() {
    let ffi_config = FfiConfig {
        paths: vec!["src".to_string()],
        types: Some(vec!["rs".to_string()]),
        ignore_blanks: Some(true),
        ignore_comments: Some(false),
        enable_async: Some(true),
        num_workers: Some(4),
        exclude_files: None,
    };

    let config: Config = ffi_config.into();

    assert_eq!(config.paths, vec!["src"]);
    assert_eq!(config.types, vec!["rs"]);
    assert_eq!(config.ignore_blanks, true);
    assert_eq!(config.ignore_comments, false);
    assert_eq!(config.enable_async, true);
    assert_eq!(config.num_workers, 4);
}

#[test]
fn what_a_foreign_caller_leaves_open_stays_initial() {
    let config: Config = FfiConfig {
        paths: Vec::new(),
        types: None,
        ignore_blanks: None,
        ignore_comments: None,
        enable_async: None,
        num_workers: None,
        exclude_files: Some(vec!["target".to_string()]),
    }
    .into();
    let initial = Config::new();
    assert!(config.paths.is_empty());
    assert_eq!(config.types, initial.types);
    assert_eq!(config.exclude_files, vec!["target"]);
    assert_eq!((config.ignore_blanks, config.ignore_comments, config.enable_async, config.num_workers), (false, false, false, 0));
    assert_eq!(config.output, OutputFormat::Text);
}

#[test]
fn the_csv_text_is_exact() {
    let report = create_test_report();
    let expected = "Language,Files,Lines,Code,Comments,Blanks,Functions,Classes\n\
                    Rust,1,100,80,10,10,5\n\
                    JavaScript,1,50,40,5,5,3\n\
                    ,,,,,,,,\n\
                    Total,2,150,120,15,15,8\n";
    assert_eq!(report_to_csv(&report).unwrap(), expected);
    assert_eq!(CsvExporter::new().format_as_csv(&report).unwrap(), expected);
    assert_eq!(CsvExporter::default().export(&report).unwrap(), expected);
    assert_eq!(export_report(&report, OutputFormat::Csv).unwrap(), expected);
    let empty = "Language,Files,Lines,Code,Comments,Blanks,Functions,Classes\n,,,,,,,,\nTotal,0,0,0,0,0,0\n";
    assert_eq!(report_to_csv(&Report::new()).unwrap(), empty);
}

#[test]
fn the_json_text_is_what_serde_json_reads_back() {
    let report = create_test_report();
    let text = report_to_json(&report).unwrap();
    assert_eq!(JsonExporter::new().format_as_json(&report).unwrap(), text);
    assert_eq!(JsonExporter::default().export(&report).unwrap(), text);
    assert_eq!(FileSaver::render(&report, OutputFormat::Json).unwrap(), text);
    let value: serde_json::Value = serde_json::from_str(&text).unwrap();
    let languages = value["languages"].as_array().unwrap();
    assert_eq!(languages.len(), 2);
    assert_eq!(languages[0]["language"], "Rust");
    assert_eq!(languages[0]["files"], 1);
    assert_eq!(languages[0]["lines"], 100);
    assert_eq!(languages[0]["code"], 80);
    assert_eq!(languages[0]["comments"], 10);
    assert_eq!(languages[0]["blanks"], 10);
    assert_eq!(languages[0]["functions"], 5);
    assert_eq!(languages[0]["classes"], 2);
    assert_eq!(languages[1]["language"], "JavaScript");
    assert_eq!(languages[1]["lines"], 50);
    assert_eq!(value["total"]["files"], 2);
    assert_eq!(value["total"]["lines"], 150);
    assert_eq!(value["total"]["code"], 120);
    assert_eq!(value["total"]["comments"], 15);
    assert_eq!(value["total"]["blanks"], 15);
    assert_eq!(value["total"]["functions"], 8);
    assert_eq!(value["total"]["classes"], 3);
    // written with indentation, one member per line
    assert!(text.starts_with("{\n  \"languages\": [\n    {\n"));
}

#[test]
fn a_report_has_no_export_as_plain_text() {
    let report = create_test_report();
    let error = export_report(&report, OutputFormat::Text).unwrap_err();
    assert!(matches!(error, SaveError::UnsupportedFormat));
    assert_eq!(error.to_string(), "Unsupported output format for saving");
    assert!(matches!(FileSaver::render(&report, OutputFormat::Text), Err(SaveError::UnsupportedFormat)));
    assert_eq!(SaveError::Io("disk full".to_string()).to_string(), "IO error: disk full");
    assert_eq!(SaveError::Json("bad".to_string()).to_string(), "JSON error: bad");
}

#[test]
fn the_result_for_a_foreign_caller() {
    let result = FfiResult::from_report(&create_test_report());
    assert!(result.success);
    assert!(result.error.is_none());
    assert_eq!(result.languages.len(), 2);
    assert_eq!(result.languages[0].language, "Rust");
    assert_eq!(result.languages[0].lines, 100);
    assert_eq!(result.languages[1].language, "JavaScript");
    assert_eq!(result.languages[1].classes, 1);
    assert_eq!(result.total, Totals { files: 2, lines: 150, code: 120, comments: 15, blanks: 15, functions: 8, classes: 3 });
    let failed = FfiResult::failure("Test error");
    assert!(!failed.success);
    assert_eq!(failed.error, Some("Test error".to_string()));
    assert!(failed.languages.is_empty());
    assert_eq!(failed.total, Totals::zero());
}

#[test]
fn the_command_line_gives_settings_or_a_message() {
    let mut cli = Cli::new();
    let config = cli.configure(vec!["--type", "Rust,c", "--ignore-blanks"]).unwrap();
    assert_eq!(config.types, vec!["Rust", "c"]);
    assert!(config.ignore_blanks);
    assert_eq!(config.paths, vec!["."]);
    assert_eq!(cli.configure(vec!["--nothing"]).unwrap_err(), "unknown flag: nothing");
    assert_eq!(cli.configure(vec!["--output"]).unwrap_err(), "no value provided for argument: output");
    assert_eq!(cli.configure(vec!["-o", "pdf"]).unwrap_err(), "parse error: Invalid output format: pdf");
    assert_eq!(cli.arg_parser().get_args().len(), 7);
}

#[test]
fn formats_are_named() {
    assert_eq!(OutputFormat::default(), OutputFormat::Text);
    assert_eq!(OutputFormat::parse("text"), Ok(OutputFormat::Text));
    assert_eq!(OutputFormat::parse("Text"), Err("Invalid output format: Text".to_string()));
    assert_eq!("csv".parse::<OutputFormat>(), Ok(OutputFormat::Csv));
    assert_eq!("CSV".parse::<OutputFormat>(), Err("Invalid output format: CSV".to_string()));
    assert_eq!(OutputFormat::Json.to_string(), "Json");
}
