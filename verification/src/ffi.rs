//! The settings and the result as they cross the boundary to foreign
//! callers.

use vstd::prelude::*;
use crate::config::{Config, ConfigView};
use crate::langs::registry::{display_name, label_of};
use crate::report::{entries_of, LineOrder, Report, Totals};
use crate::stats::LangStat;
use crate::utils::strings::strs;

verus! {

/// The settings as a foreign caller gives them: the paths, and whatever
/// else the caller wants to set.
#[derive(Debug)]
pub struct FfiConfig {
    pub paths: Vec<String>,
    pub types: Option<Vec<String>>,
    pub exclude_files: Option<Vec<String>>,
    pub ignore_blanks: Option<bool>,
    pub ignore_comments: Option<bool>,
    pub enable_async: Option<bool>,
    pub num_workers: Option<usize>,
}

/// The statistics of one language as a foreign caller gets them.
#[derive(Debug)]
pub struct LanguageStat {
    pub language: String,
    pub files: usize,
    pub lines: usize,
    pub code: usize,
    pub comments: usize,
    pub blanks: usize,
    pub functions: usize,
    pub classes: usize,
}

/// The result as a foreign caller gets it.
#[derive(Debug)]
pub struct FfiResult {
    pub success: bool,
    pub error: Option<String>,
    pub languages: Vec<LanguageStat>,
    pub total: Totals,
}

impl FfiConfig {
    /// The settings that the caller asks for: what it does not set stays as
    /// it is where nothing is asked for.
    pub open spec fn settings(&self) -> ConfigView {
        let base = Config::initial();
        ConfigView {
            paths: strs(self.paths@),
            types: match self.types {
                Some(types) => strs(types@),
                None => base.types,
            },
            ignore_blanks: match self.ignore_blanks {
                Some(b) => b,
                None => base.ignore_blanks,
            },
            ignore_comments: match self.ignore_comments {
                Some(b) => b,
                None => base.ignore_comments,
            },
            exclude_files: match self.exclude_files {
                Some(files) => strs(files@),
                None => base.exclude_files,
            },
            show_stats: base.show_stats,
            output: base.output,
            help: base.help,
            num_workers: match self.num_workers {
                Some(n) => n as nat,
                None => base.num_workers,
            },
            enable_async: match self.enable_async {
                Some(b) => b,
                None => base.enable_async,
            },
        }
    }
}

impl From<FfiConfig> for Config {
    /// The settings that the caller asks for.
    fn from(ffi_config: FfiConfig) -> (config: Config)
        ensures
            config@ == ffi_config.settings(),
    {
        let mut config = Config::new();
        config.paths = ffi_config.paths;
        match ffi_config.types {
            Some(types) => {
                config.types = types;
            },
            None => {},
        }
        match ffi_config.exclude_files {
            Some(files) => {
                config.exclude_files = files;
            },
            None => {},
        }
        match ffi_config.ignore_blanks {
            Some(b) => {
                config.ignore_blanks = b;
            },
            None => {},
        }
        match ffi_config.ignore_comments {
            Some(b) => {
                config.ignore_comments = b;
            },
            None => {},
        }
        match ffi_config.enable_async {
            Some(b) => {
                config.enable_async = b;
            },
            None => {},
        }
        match ffi_config.num_workers {
            Some(n) => {
                config.num_workers = n;
            },
            None => {},
        }
        config
    }
}

impl vstd::std_specs::convert::FromSpecImpl<FfiConfig> for Config {
    /// The conversion is stated over the settings' values, not over the
    /// record itself.
    open spec fn obeys_from_spec() -> bool {
        false
    }

    open spec fn from_spec(ffi_config: FfiConfig) -> Config {
        arbitrary()
    }
}

impl LanguageStat {
    /// Whether the record holds the numbers of `stat` under the name of its
    /// language.
    pub open spec fn shows(&self, stat: LangStat) -> bool {
        &&& self.language@ == label_of(stat.lang)
        &&& self.files == stat.files
        &&& self.lines == stat.lines
        &&& self.code == stat.code
        &&& self.comments == stat.comments
        &&& self.blanks == stat.blanks
        &&& self.functions == stat.functions
        &&& self.classes == stat.classes
    }
}

impl FfiResult {
    /// The result of a run that gave `report`: its languages, those with
    /// the most lines first, and its totals.
    pub fn from_report(report: &Report) -> (r: Self)
        requires
            report.wf(),
        ensures
            r.success,
            r.error is None,
            r.total.tally() == report.spec_totals(),
            exists|rows: Seq<LangStat>|
                #![trigger report.lists(rows, LineOrder::Descending)]
                report.lists(rows, LineOrder::Descending) && rows.len() == r.languages@.len()
                    && forall|i: int|
                    0 <= i < rows.len() ==> (#[trigger] r.languages@[i]).shows(rows[i]),
    {
        let items: Vec<&LangStat> = report.sort_stats(LineOrder::Descending);
        let ghost rows = entries_of(items@);
        let mut languages: Vec<LanguageStat> = Vec::new();
        let mut i: usize = 0;
        while i < items.len()
            invariant
                i <= items@.len(),
                rows == entries_of(items@),
                languages@.len() == i,
                forall|j: int| 0 <= j < i ==> (#[trigger] languages@[j]).shows(rows[j]),
            decreases items@.len() - i,
        {
            let stat: &LangStat = items[i];
            languages.push(
                LanguageStat {
                    language: display_name(&stat.lang).to_owned(),
                    files: stat.files,
                    lines: stat.lines,
                    code: stat.code,
                    comments: stat.comments,
                    blanks: stat.blanks,
                    functions: stat.functions,
                    classes: stat.classes,
                },
            );
            i = i + 1;
        }
        FfiResult { success: true, error: None, languages, total: report.totals() }
    }

    /// The result of a run that failed with the message `error_msg`.
    pub fn failure(error_msg: &str) -> (r: Self)
        ensures
            !r.success,
            r.error matches Some(msg) && msg@ == error_msg@,
            r.languages@.len() == 0,
            r.total == Totals::zero(),
    {
        FfiResult {
            success: false,
            error: Some(error_msg.to_owned()),
            languages: Vec::new(),
            total: Totals::zero(),
        }
    }
}

} // verus!
