//! The settings of one run.

use vstd::prelude::*;
use crate::langs::registry::{language_names, supported_languages};
use crate::utils::format::OutputFormat;
use crate::utils::strings::{clone_strings, strings_eq, strs};

verus! {

/// The settings of one run as mathematical values.
pub struct ConfigView {
    pub paths: Seq<Seq<char>>,
    pub types: Seq<Seq<char>>,
    pub ignore_blanks: bool,
    pub ignore_comments: bool,
    pub exclude_files: Seq<Seq<char>>,
    pub show_stats: bool,
    pub output: OutputFormat,
    pub help: bool,
    pub num_workers: nat,
    pub enable_async: bool,
}

/// The settings of one run.
#[derive(Debug)]
pub struct Config {
    /// The roots to walk.
    pub paths: Vec<String>,
    /// The names of the enabled languages; their case does not matter.
    pub types: Vec<String>,
    pub ignore_blanks: bool,
    pub ignore_comments: bool,
    /// Paths, path fragments or names to leave out.
    pub exclude_files: Vec<String>,
    pub show_stats: bool,
    pub output: OutputFormat,
    pub help: bool,
    /// The number of workers; 0 leaves the choice to the host.
    pub num_workers: usize,
    /// Whether the asynchronous pipeline runs in place of the worker pool.
    pub enable_async: bool,
}

impl View for Config {
    type V = ConfigView;

    open spec fn view(&self) -> ConfigView {
        ConfigView {
            paths: strs(self.paths@),
            types: strs(self.types@),
            ignore_blanks: self.ignore_blanks,
            ignore_comments: self.ignore_comments,
            exclude_files: strs(self.exclude_files@),
            show_stats: self.show_stats,
            output: self.output,
            help: self.help,
            num_workers: self.num_workers as nat,
            enable_async: self.enable_async,
        }
    }
}

impl Config {
    /// The settings that hold where nothing else was asked for: the current
    /// directory, every language, the worker pool with as many workers as
    /// the host offers, and a report as text.
    pub open spec fn initial() -> ConfigView {
        ConfigView {
            paths: seq!["."@],
            types: language_names(),
            ignore_blanks: false,
            ignore_comments: false,
            exclude_files: Seq::empty(),
            show_stats: false,
            output: OutputFormat::Text,
            help: false,
            num_workers: 0,
            enable_async: false,
        }
    }

    /// The settings that hold where nothing else was asked for.
    pub fn new() -> (config: Self)
        ensures
            config@ == Config::initial(),
    {
        let names: Vec<&'static str> = supported_languages();
        let mut types: Vec<String> = Vec::new();
        let mut i: usize = 0;
        while i < names.len()
            invariant
                i <= names@.len(),
                types@.len() == i,
                forall|j: int| 0 <= j < i ==> types@[j]@ == names@[j]@,
            decreases names@.len() - i,
        {
            types.push(names[i].to_owned());
            i = i + 1;
        }
        let mut paths: Vec<String> = Vec::new();
        paths.push(".".to_owned());
        let config = Config {
            paths,
            types,
            ignore_blanks: false,
            ignore_comments: false,
            exclude_files: Vec::new(),
            show_stats: false,
            output: OutputFormat::Text,
            help: false,
            num_workers: 0,
            enable_async: false,
        };
        assert(config@.paths =~= Config::initial().paths);
        assert(config@.types =~= Config::initial().types) by {
            assert(crate::langs::lang_def::texts(names@) == language_names());
            assert forall|j: int| 0 <= j < names@.len() implies strs(types@)[j]
                == language_names()[j] by {
                assert(crate::langs::lang_def::texts(names@)[j] == names@[j]@);
            }
        }
        assert(config@.exclude_files =~= Config::initial().exclude_files);
        config
    }
}

impl Clone for Config {
    fn clone(&self) -> (config: Config)
        ensures
            config@ == self@,
    {
        Config {
            paths: clone_strings(&self.paths),
            types: clone_strings(&self.types),
            ignore_blanks: self.ignore_blanks,
            ignore_comments: self.ignore_comments,
            exclude_files: clone_strings(&self.exclude_files),
            show_stats: self.show_stats,
            output: self.output,
            help: self.help,
            num_workers: self.num_workers,
            enable_async: self.enable_async,
        }
    }
}

impl PartialEq for Config {
    fn eq(&self, other: &Self) -> (r: bool) {
        strings_eq(&self.paths, &other.paths) && strings_eq(&self.types, &other.types)
            && self.ignore_blanks == other.ignore_blanks && self.ignore_comments
            == other.ignore_comments && strings_eq(&self.exclude_files, &other.exclude_files)
            && self.show_stats == other.show_stats && self.output == other.output && self.help
            == other.help && self.num_workers == other.num_workers && self.enable_async
            == other.enable_async
    }
}

impl vstd::std_specs::cmp::PartialEqSpecImpl for Config {
    open spec fn obeys_eq_spec() -> bool {
        true
    }

    open spec fn eq_spec(&self, other: &Self) -> bool {
        self@ == other@
    }
}

} // verus!
