//! Statistics of one file and of one language.

use vstd::prelude::*;
use crate::langs::lang_type::LangType;

verus! {

/// The counters of a file or of a language as mathematical values.
pub struct Counts {
    pub lines: nat,
    pub code: nat,
    pub comments: nat,
    pub blanks: nat,
    pub functions: nat,
    pub classes: nat,
}

impl Counts {
    /// All counters at zero.
    pub open spec fn zero() -> Counts {
        Counts { lines: 0, code: 0, comments: 0, blanks: 0, functions: 0, classes: 0 }
    }

    /// The sums of the counters of `self` and `other`.
    pub open spec fn plus(self, other: Counts) -> Counts {
        Counts {
            lines: self.lines + other.lines,
            code: self.code + other.code,
            comments: self.comments + other.comments,
            blanks: self.blanks + other.blanks,
            functions: self.functions + other.functions,
            classes: self.classes + other.classes,
        }
    }

    /// Every line is a blank line, a comment line or a code line.
    pub open spec fn balanced(self) -> bool {
        self.lines == self.blanks + self.comments + self.code
    }

    /// Every counter fits a `usize`.
    pub open spec fn fits(self) -> bool {
        &&& self.lines <= usize::MAX
        &&& self.code <= usize::MAX
        &&& self.comments <= usize::MAX
        &&& self.blanks <= usize::MAX
        &&& self.functions <= usize::MAX
        &&& self.classes <= usize::MAX
    }
}

/// The statistics of one file.
#[derive(Debug)]
pub struct FileStat {
    pub lang: LangType,
    pub path: String,
    pub name: String,
    pub lines: usize,
    pub code: usize,
    pub comments: usize,
    pub blanks: usize,
    /// Number of lines that lie in function bodies, signatures included.
    pub functions: usize,
    pub classes: usize,
}

impl FileStat {
    /// The file's counters.
    pub open spec fn counts(&self) -> Counts {
        Counts {
            lines: self.lines as nat,
            code: self.code as nat,
            comments: self.comments as nat,
            blanks: self.blanks as nat,
            functions: self.functions as nat,
            classes: self.classes as nat,
        }
    }

    /// The statistics of a file of `lang` in which nothing was counted yet.
    pub fn new(lang: LangType, path: String, name: String) -> (stat: Self)
        ensures
            stat.lang == lang,
            stat.path == path,
            stat.name == name,
            stat.counts() == Counts::zero(),
    {
        FileStat {
            lang,
            path,
            name,
            lines: 0,
            code: 0,
            comments: 0,
            blanks: 0,
            functions: 0,
            classes: 0,
        }
    }
}

impl Default for FileStat {
    fn default() -> (stat: FileStat)
        ensures
            stat.lang == LangType::Unknown,
            stat.path@ == Seq::<char>::empty(),
            stat.name@ == Seq::<char>::empty(),
            stat.counts() == Counts::zero(),
    {
        FileStat::new(LangType::Unknown, String::new(), String::new())
    }
}

impl Clone for FileStat {
    fn clone(&self) -> (stat: FileStat)
        ensures
            stat == *self,
    {
        FileStat {
            lang: self.lang,
            path: self.path.clone(),
            name: self.name.clone(),
            lines: self.lines,
            code: self.code,
            comments: self.comments,
            blanks: self.blanks,
            functions: self.functions,
            classes: self.classes,
        }
    }
}

/// The number of files of a language and the sums of their counters, as
/// mathematical values.
pub struct Tally {
    pub files: nat,
    pub counts: Counts,
}

impl Tally {
    /// No file.
    pub open spec fn zero() -> Tally {
        Tally { files: 0, counts: Counts::zero() }
    }

    /// The tally of the files of `self` and of `other` together.
    pub open spec fn plus(self, other: Tally) -> Tally {
        Tally { files: self.files + other.files, counts: self.counts.plus(other.counts) }
    }

    /// The tally with one more file, whose counters are `counts`.
    pub open spec fn plus_file(self, counts: Counts) -> Tally {
        Tally { files: self.files + 1, counts: self.counts.plus(counts) }
    }

    /// The number of files and every counter fit a `usize`.
    pub open spec fn fits(self) -> bool {
        self.files <= usize::MAX && self.counts.fits()
    }
}

/// The statistics of one language: the number of its files, the sums of
/// their counters, and the files' own records.
#[derive(Debug)]
pub struct LangStat {
    pub lang: LangType,
    pub files: usize,
    pub lines: usize,
    pub code: usize,
    pub comments: usize,
    pub blanks: usize,
    pub functions: usize,
    pub classes: usize,
    pub stats: Vec<FileStat>,
}

impl LangStat {
    /// The sums of the counters of the language's files.
    pub open spec fn counts(&self) -> Counts {
        Counts {
            lines: self.lines as nat,
            code: self.code as nat,
            comments: self.comments as nat,
            blanks: self.blanks as nat,
            functions: self.functions as nat,
            classes: self.classes as nat,
        }
    }

    /// The number of files and the sums of their counters.
    pub open spec fn tally(&self) -> Tally {
        Tally { files: self.files as nat, counts: self.counts() }
    }

    /// The statistics of `lang` before any file was added.
    pub fn new(lang: LangType) -> (stat: Self)
        ensures
            stat.lang == lang,
            stat.tally() == Tally::zero(),
            stat.stats@.len() == 0,
    {
        LangStat {
            lang,
            files: 0,
            lines: 0,
            code: 0,
            comments: 0,
            blanks: 0,
            functions: 0,
            classes: 0,
            stats: Vec::new(),
        }
    }

    /// Adds the statistics `other` to `self`: the counters add up, and the
    /// file records of `other` follow those of `self`.
    pub fn add_assign(&mut self, other: LangStat)
        requires
            old(self).tally().plus(other.tally()).fits(),
        ensures
            final(self).lang == old(self).lang,
            final(self).tally() == old(self).tally().plus(other.tally()),
            final(self).stats@ == old(self).stats@ + other.stats@,
    {
        let mut other = other;
        self.files = self.files + other.files;
        self.lines = self.lines + other.lines;
        self.code = self.code + other.code;
        self.comments = self.comments + other.comments;
        self.blanks = self.blanks + other.blanks;
        self.functions = self.functions + other.functions;
        self.classes = self.classes + other.classes;
        self.stats.append(&mut other.stats);
    }

    /// Adds one file: the counters grow by the file's, and the file's record
    /// is kept behind those that were there.
    pub fn add_file(&mut self, stat: FileStat)
        requires
            old(self).tally().plus_file(stat.counts()).fits(),
        ensures
            final(self).lang == old(self).lang,
            final(self).tally() == old(self).tally().plus_file(stat.counts()),
            final(self).stats@ == old(self).stats@.push(stat),
    {
        self.files = self.files + 1;
        self.lines = self.lines + stat.lines;
        self.code = self.code + stat.code;
        self.comments = self.comments + stat.comments;
        self.blanks = self.blanks + stat.blanks;
        self.functions = self.functions + stat.functions;
        self.classes = self.classes + stat.classes;
        self.stats.push(stat);
    }
}

} // verus!
