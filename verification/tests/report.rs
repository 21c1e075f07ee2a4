use toukei::counter::CounterError;
use toukei::fc::{choose_workers, Absorbed, AsyncFileCounter, Counted, FileCounter};
use toukei::config::Config;
use toukei::langs::lang_type::LangType;
use toukei::report::{LineOrder, Report, Totals};
use toukei::stats::{FileStat, LangStat};
use toukei::utils::chart::{ChartConfig, ChartDrawer};

fn file(lang: LangType, name: &str, lines: usize, code: usize, comments: usize, blanks: usize, functions: usize, classes: usize) -> FileStat {
    FileStat { lang, path: name.to_string(), name: name.to_string(), lines, code, comments, blanks, functions, classes }
}

fn sample_files() -> Vec<FileStat> {
    vec![
        file(LangType::Rust, "a.rs", 100, 80, 10, 10, 5, 2),
        file(LangType::Javascript, "b.js", 50, 40, 5, 5, 3, 1),
        file(LangType::Rust, "c.rs", 7, 4, 2, 1, 0, 0),
        file(LangType::C, "d.c", 50, 30, 10, 10, 9, 0),
        file(LangType::Python, "e.py", 1, 1, 0, 0, 1, 0),
    ]
}

fn totals_by_language(report: &Report) -> Vec<(LangType, usize, usize, usize, usize, usize, usize, usize)> {
    report
        .sort_stats(LineOrder::Descending)
        .iter()
        .map(|s| (s.lang, s.files, s.lines, s.code, s.comments, s.blanks, s.functions, s.classes))
        .collect()
}

fn report_of(files: &[FileStat]) -> Report {
    let mut report = Report::new();
    for stat in files {
        assert!(report.room_for(stat));
        report.add(stat.clone());
    }
    report
}

#[test]
fn a_new_report_is_empty() {
    let report = Report::new();
    assert!(report.get_by_lang(&LangType::Rust).is_none());
    assert!(report.sort_stats(LineOrder::Descending).is_empty());
    assert_eq!(report.totals(), Totals::zero());
}

#[test]
fn files_are_summed_by_language() {
    let report = report_of(&sample_files());
    let rust = report.get_by_lang(&LangType::Rust).unwrap();
    assert_eq!((rust.files, rust.lines, rust.code, rust.comments, rust.blanks, rust.functions, rust.classes), (2, 107, 84, 12, 11, 5, 2));
    assert_eq!(rust.stats.len(), 2);
    assert_eq!(rust.stats[0].name, "a.rs");
    assert_eq!(rust.stats[1].name, "c.rs");
    let c = report.get_by_lang(&LangType::C).unwrap();
    assert_eq!((c.files, c.lines), (1, 50));
    assert!(report.get_by_lang(&LangType::Go).is_none());
    assert_eq!(
        report.totals(),
        Totals { files: 5, lines: 208, code: 155, comments: 27, blanks: 26, functions: 18, classes: 3 }
    );
}

#[test]
fn languages_are_listed_by_lines_and_then_by_declaration() {
    let report = report_of(&sample_files());
    let down: Vec<LangType> = report.sort_stats(LineOrder::Descending).iter().map(|s| s.lang).collect();
    assert_eq!(down, vec![LangType::Rust, LangType::C, LangType::Javascript, LangType::Python]);
    let up: Vec<LangType> = report.sort_stats(LineOrder::Ascending).iter().map(|s| s.lang).collect();
    assert_eq!(up, vec![LangType::Python, LangType::C, LangType::Javascript, LangType::Rust]);
}

#[test]
fn the_order_of_merging_does_not_change_the_sums() {
    let files = sample_files();
    let forward = report_of(&files);
    let mut reversed = files.clone();
    reversed.reverse();
    let backward = report_of(&reversed);
    let rotated: Vec<FileStat> = files[2..].iter().chain(files[..2].iter()).cloned().collect();
    let turned = report_of(&rotated);
    assert_eq!(totals_by_language(&forward), totals_by_language(&backward));
    assert_eq!(totals_by_language(&forward), totals_by_language(&turned));
    assert_eq!(forward.totals(), backward.totals());
}

#[test]
fn the_sums_of_the_parts_are_the_sums_of_the_whole() {
    let files = sample_files();
    let whole = report_of(&files);
    let first = report_of(&files[..2]);
    let second = report_of(&files[2..]);
    for lang in [LangType::Rust, LangType::Javascript, LangType::C, LangType::Python, LangType::Go] {
        let mut sum = LangStat::new(lang);
        for part in [&first, &second] {
            if let Some(stat) = part.get_by_lang(&lang) {
                let mut copy = LangStat::new(lang);
                for f in &stat.stats {
                    copy.add_file(f.clone());
                }
                sum.add_assign(copy);
            }
        }
        match whole.get_by_lang(&lang) {
            Some(stat) => {
                assert_eq!((sum.files, sum.lines, sum.code, sum.comments, sum.blanks, sum.functions, sum.classes),
                           (stat.files, stat.lines, stat.code, stat.comments, stat.blanks, stat.functions, stat.classes));
                assert_eq!(sum.stats.len(), stat.stats.len());
            }
            None => assert_eq!(sum.files, 0),
        }
    }
}

#[test]
fn counters_that_would_not_fit_are_seen_before_they_are_added() {
    let mut report = Report::new();
    let big = file(LangType::Rust, "big.rs", usize::MAX, usize::MAX, 0, 0, 0, 0);
    assert!(report.room_for(&big));
    report.add(big);
    assert!(!report.room_for(&file(LangType::Rust, "one.rs", 1, 1, 0, 0, 0, 0)));
    assert!(report.room_for(&file(LangType::Rust, "none.rs", 0, 0, 0, 0, 0, 0)));
    assert!(report.room_for(&file(LangType::C, "one.c", 1, 1, 0, 0, 0, 0)));
    report.add(file(LangType::C, "one.c", 1, 1, 0, 0, 0, 0));
    // totals stop at the largest number
    assert_eq!(report.totals().lines, usize::MAX);
    assert_eq!(report.totals().files, 2);
}

fn counted(path: &str, result: Result<FileStat, CounterError>) -> Counted {
    Counted { path: path.to_string(), result }
}

fn results(with_failure: bool) -> Vec<Counted> {
    let files = sample_files();
    let mut out = vec![
        counted("a.rs", Ok(files[0].clone())),
        counted("x.bin", Err(CounterError::BinaryFile)),
        counted("b.js", Ok(files[1].clone())),
    ];
    if with_failure {
        out.push(counted("gone.rs", Err(CounterError::IoError("not found".to_string()))));
    }
    out.push(counted("c.rs", Ok(files[2].clone())));
    out
}

#[test]
fn the_worker_pool_passes_binary_files_over() {
    let report = FileCounter::drain(&results(false)).unwrap();
    assert_eq!(report.totals().files, 3);
    assert_eq!(report.get_by_lang(&LangType::Rust).unwrap().lines, 107);
    assert_eq!(report.get_by_lang(&LangType::Javascript).unwrap().lines, 50);
    let only_binary = FileCounter::drain(&vec![counted("x.bin", Err(CounterError::BinaryFile))]).unwrap();
    assert_eq!(only_binary.totals(), Totals::zero());
    assert_eq!(FileCounter::drain(&Vec::new()).unwrap().totals(), Totals::zero());
}

#[test]
fn the_worker_pool_stops_at_the_first_failure() {
    let error = FileCounter::drain(&results(true)).unwrap_err();
    assert_eq!(error, "Failed to count file \"gone.rs\": IO Error: not found");
    let mut two = results(true);
    two.push(counted("later.rs", Err(CounterError::LexError("no rules".to_string()))));
    assert_eq!(FileCounter::drain(&two).unwrap_err(), "Failed to count file \"gone.rs\": IO Error: not found");
}

#[test]
fn the_consumer_goes_on_after_a_failure() {
    let mut report = Report::new();
    let mut log = Vec::new();
    let mut items = results(true);
    items.reverse();
    for item in &items {
        match AsyncFileCounter::absorb(&mut report, item) {
            Absorbed::Merged => {}
            Absorbed::Skipped(text) => log.push(text),
            Absorbed::Logged(text) => log.push(text),
        }
    }
    assert_eq!(report.totals().files, 3);
    assert_eq!(log, vec![
        "Failed to count file \"gone.rs\": IO Error: not found".to_string(),
        "Skipping binary file: x.bin".to_string(),
    ]);
}

#[test]
fn both_pipelines_give_the_same_totals_without_failures() {
    let sync = FileCounter::drain(&results(false)).unwrap();
    for rotate in 0..4 {
        let mut items = results(false);
        items.rotate_left(rotate);
        let mut report = Report::new();
        for item in &items {
            AsyncFileCounter::absorb(&mut report, item);
        }
        assert_eq!(totals_by_language(&report), totals_by_language(&sync));
        assert_eq!(report.totals(), sync.totals());
    }
    let again = FileCounter::drain(&results(false)).unwrap();
    assert_eq!(totals_by_language(&again), totals_by_language(&sync));
}

#[test]
fn the_number_of_workers() {
    assert_eq!(choose_workers(3, 8), 3);
    assert_eq!(choose_workers(0, 8), 8);
    let mut config = Config::new();
    config.num_workers = 2;
    assert_eq!(FileCounter::new(config.clone()).workers(), 2);
    let pipeline = AsyncFileCounter::new(config.clone());
    assert_eq!(pipeline.workers(), 2);
    assert_eq!(pipeline.channel_capacity(), 4);
    let pipeline = pipeline.with_workers(5);
    assert_eq!(pipeline.workers(), 5);
    assert_eq!(pipeline.channel_capacity(), 10);
    config.num_workers = 0;
    assert!(FileCounter::new(config.clone()).workers() >= 1);
    assert!(AsyncFileCounter::new(config).workers() >= 1);
}

#[test]
fn new_records_are_empty() {
    let stat = FileStat::new(LangType::Go, "p/x.go".to_string(), "x.go".to_string());
    assert_eq!((stat.lang, stat.path.as_str(), stat.name.as_str()), (LangType::Go, "p/x.go", "x.go"));
    assert_eq!((stat.lines, stat.code, stat.comments, stat.blanks, stat.functions, stat.classes), (0, 0, 0, 0, 0, 0));
    let stat = FileStat::default();
    assert_eq!((stat.lang, stat.path.as_str(), stat.lines), (LangType::Unknown, "", 0));
    let lang = LangStat::new(LangType::Go);
    assert_eq!((lang.lang, lang.files, lang.lines, lang.stats.len()), (LangType::Go, 0, 0, 0));
}

#[test]
fn a_chart_names_the_first_languages_and_sums_the_rest() {
    let report = report_of(&sample_files());
    assert_eq!(ChartConfig::default(), ChartConfig { width: 1024, height: 798, top_n: 10 });
    let all = ChartDrawer::new(&report, None);
    assert_eq!(all.size(), (1024, 798));
    assert_eq!(
        all.get_sorted(),
        vec![
            ("Python".to_string(), 1),
            ("C".to_string(), 50),
            ("JavaScript".to_string(), 50),
            ("Rust".to_string(), 107),
        ]
    );
    let two = ChartDrawer::new(&report, Some(ChartConfig { width: 10, height: 20, top_n: 2 }));
    assert_eq!(two.size(), (10, 20));
    assert_eq!(
        two.get_sorted(),
        vec![("Python".to_string(), 1), ("C".to_string(), 50), ("Other".to_string(), 157)]
    );
    let none = ChartDrawer::new(&report, Some(ChartConfig { width: 1, height: 1, top_n: 0 }));
    assert_eq!(none.get_sorted(), vec![("Other".to_string(), 208)]);
    let four = ChartDrawer::new(&report, Some(ChartConfig { width: 1, height: 1, top_n: 4 }));
    assert_eq!(four.get_sorted().len(), 4);
    let empty = Report::new();
    assert!(ChartDrawer::new(&empty, None).get_sorted().is_empty());
}

#[test]
fn counters_that_do_not_fit_stop_the_worker_pool_and_are_logged_by_the_consumer() {
    let items = vec![
        counted("big.rs", Ok(file(LangType::Rust, "big.rs", usize::MAX, usize::MAX, 0, 0, 0, 0))),
        counted("one.rs", Ok(file(LangType::Rust, "one.rs", 1, 1, 0, 0, 0, 0))),
        counted("one.c", Ok(file(LangType::C, "one.c", 1, 1, 0, 0, 0, 0))),
    ];
    assert_eq!(FileCounter::drain(&items).unwrap_err(), "Counters overflow at file \"one.rs\"");
    let mut report = Report::new();
    assert!(matches!(AsyncFileCounter::absorb(&mut report, &items[0]), Absorbed::Merged));
    match AsyncFileCounter::absorb(&mut report, &items[1]) {
        Absorbed::Logged(text) => assert_eq!(text, "Counters overflow at file \"one.rs\""),
        other => panic!("unexpected outcome: {:?}", other),
    }
    assert!(matches!(AsyncFileCounter::absorb(&mut report, &items[2]), Absorbed::Merged));
    assert_eq!(report.totals().files, 2);
    assert_eq!(report.get_by_lang(&LangType::Rust).unwrap().files, 1);
}
