//! The report: the statistics of every language that had a file.

use vstd::prelude::*;
use crate::langs::lang_type::{LangType, LANG_COUNT};
use crate::stats::{Counts, FileStat, LangStat, Tally};

verus! {

/// The statistics of all languages of one run. A language has an entry once
/// a file of it was added; no language has two.
#[derive(Debug)]
pub struct Report {
    /// One slot per language, in the order of declaration.
    inner: Vec<Option<LangStat>>,
}

/// The report of the files `files`, given as language and counters, added to
/// the report `m` one after the other.
pub open spec fn absorb(m: Map<LangType, Tally>, lang: LangType, counts: Counts) -> Map<
    LangType,
    Tally,
> {
    m.insert(
        lang,
        (if m.contains_key(lang) {
            m[lang]
        } else {
            Tally::zero()
        }).plus_file(counts),
    )
}

/// The order in which `sort_stats` lists the languages.
#[derive(Debug, Clone, Copy, PartialEq, Eq, Structural)]
pub enum LineOrder {
    /// Fewest lines first.
    Ascending,
    /// Most lines first.
    Descending,
}

impl Report {
    /// Every slot holds the statistics of its own language or nothing. This
    /// holds of every report that was made by `new` and filled by `add`.
    pub closed spec fn wf(&self) -> bool {
        &&& self.inner@.len() == LANG_COUNT
        &&& forall|i: int|
            0 <= i < LANG_COUNT ==> (#[trigger] self.inner@[i] matches Some(stat)
                ==> stat.lang.spec_index() == i)
    }

    /// The statistics of `lang`, if the report has an entry for it.
    pub closed spec fn entry(&self, lang: LangType) -> Option<LangStat> {
        self.inner@[lang.spec_index()]
    }

    /// For every language with an entry, the number of its files and the
    /// sums of their counters.
    pub open spec fn view(&self) -> Map<LangType, Tally> {
        Map::new(|lang: LangType| self.entry(lang) is Some, |lang: LangType| self.entry(lang)->0.tally())
    }

    /// The records of the files of `lang`, in the order in which they were
    /// added.
    pub open spec fn files_of(&self, lang: LangType) -> Seq<FileStat> {
        match self.entry(lang) {
            Some(stat) => stat.stats@,
            None => Seq::empty(),
        }
    }

    /// A report without entries.
    pub fn new() -> (report: Self)
        ensures
            report.wf(),
            report@ == Map::<LangType, Tally>::empty(),
    {
        let mut inner: Vec<Option<LangStat>> = Vec::new();
        let mut i: usize = 0;
        while i < LANG_COUNT
            invariant
                i <= LANG_COUNT,
                inner@.len() == i,
                forall|j: int| 0 <= j < i ==> inner@[j] is None,
            decreases LANG_COUNT - i,
        {
            inner.push(None);
            i = i + 1;
        }
        let report = Report { inner };
        assert(report@ =~= Map::<LangType, Tally>::empty());
        report
    }

    /// The statistics of `lang`, if a file of it was added.
    pub fn get_by_lang(&self, lang: &LangType) -> (r: Option<&LangStat>)
        requires
            self.wf(),
        ensures
            r is Some <==> self@.contains_key(*lang),
            r matches Some(stat) ==> Some(*stat) == self.entry(*lang) && stat.lang == *lang,
    {
        let i: usize = lang.index();
        self.inner[i].as_ref()
    }

    /// Whether the counters of the language of `stat` still fit after `stat`
    /// is added.
    pub open spec fn has_room(&self, stat: &FileStat) -> bool {
        (if self@.contains_key(stat.lang) {
            self@[stat.lang]
        } else {
            Tally::zero()
        }).plus_file(stat.counts()).fits()
    }

    /// Merges the record of one file into the entry of its language, which
    /// is made if the language had none; the record itself is kept in the
    /// entry, behind those that were there.
    pub fn add(&mut self, stat: FileStat)
        requires
            old(self).wf(),
            old(self).has_room(&stat),
        ensures
            final(self).wf(),
            final(self)@ == absorb(old(self)@, stat.lang, stat.counts()),
            final(self).files_of(stat.lang) == old(self).files_of(stat.lang).push(stat),
            forall|lang: LangType|
                lang != stat.lang ==> final(self).entry(lang) == old(self).entry(lang),
    {
        let lang = stat.lang;
        let i: usize = lang.index();
        let ghost before = *self;
        let mut slot: Option<LangStat> = None;
        std::mem::swap(&mut slot, &mut self.inner[i]);
        let mut entry: LangStat = match slot {
            Some(entry) => entry,
            None => LangStat::new(lang),
        };
        entry.add_file(stat);
        self.inner[i] = Some(entry);
        proof {
            assert forall|other: LangType| other != lang implies self.entry(other) == before.entry(
                other,
            ) by {
                assert(other.spec_index() != lang.spec_index());
            }
            assert(self@ =~= absorb(before@, lang, stat.counts()));
        }
    }

    /// Whether the counters of the language of `stat` still fit after `stat`
    /// is added.
    pub fn room_for(&self, stat: &FileStat) -> (r: bool)
        requires
            self.wf(),
        ensures
            r == self.has_room(stat),
    {
        match self.get_by_lang(&stat.lang) {
            Some(entry) => entry.files < usize::MAX && stat.lines <= usize::MAX - entry.lines
                && stat.code <= usize::MAX - entry.code && stat.comments <= usize::MAX
                - entry.comments && stat.blanks <= usize::MAX - entry.blanks && stat.functions
                <= usize::MAX - entry.functions && stat.classes <= usize::MAX - entry.classes,
            None => true,
        }
    }
}

/// The sum of `a` and `b`, or the largest number where the sum is larger.
pub open spec fn capped(a: nat, b: nat) -> nat {
    if a + b > usize::MAX {
        usize::MAX as nat
    } else {
        a + b
    }
}

/// The sum of the tallies `a` and `b`, each number capped at the largest
/// that a counter holds.
pub open spec fn capped_sum(a: Tally, b: Tally) -> Tally {
    Tally {
        files: capped(a.files, b.files),
        counts: Counts {
            lines: capped(a.counts.lines, b.counts.lines),
            code: capped(a.counts.code, b.counts.code),
            comments: capped(a.counts.comments, b.counts.comments),
            blanks: capped(a.counts.blanks, b.counts.blanks),
            functions: capped(a.counts.functions, b.counts.functions),
            classes: capped(a.counts.classes, b.counts.classes),
        },
    }
}

/// The sums over the first `n` languages, in the order of declaration, of
/// the report `m`, each capped at the largest number that a counter holds.
pub open spec fn totals_upto(m: Map<LangType, Tally>, n: int) -> Tally
    decreases n,
{
    if n <= 0 {
        Tally::zero()
    } else {
        let before = totals_upto(m, n - 1);
        let lang = LangType::spec_from_index(n - 1);
        if m.contains_key(lang) {
            capped_sum(before, m[lang])
        } else {
            before
        }
    }
}

/// The sums over all languages of a report.
#[derive(Debug, Clone, Copy, PartialEq, Eq, Structural)]
pub struct Totals {
    pub files: usize,
    pub lines: usize,
    pub code: usize,
    pub comments: usize,
    pub blanks: usize,
    pub functions: usize,
    pub classes: usize,
}

impl Totals {
    pub open spec fn tally(&self) -> Tally {
        Tally {
            files: self.files as nat,
            counts: Counts {
                lines: self.lines as nat,
                code: self.code as nat,
                comments: self.comments as nat,
                blanks: self.blanks as nat,
                functions: self.functions as nat,
                classes: self.classes as nat,
            },
        }
    }

    /// No file.
    pub open spec fn spec_zero() -> Totals {
        Totals { files: 0, lines: 0, code: 0, comments: 0, blanks: 0, functions: 0, classes: 0 }
    }

    /// No file.
    #[verifier::when_used_as_spec(spec_zero)]
    pub fn zero() -> (r: Totals)
        ensures
            r == Totals::spec_zero(),
            r.tally() == Tally::zero(),
    {
        Totals { files: 0, lines: 0, code: 0, comments: 0, blanks: 0, functions: 0, classes: 0 }
    }
}

/// The entries that `v` refers to.
pub open spec fn entries_of(v: Seq<&LangStat>) -> Seq<LangStat> {
    Seq::new(v.len(), |i: int| *v[i])
}

/// Whether the entry `a` stands before the entry `b` in the order `order`:
/// by the number of lines, and among entries with the same number of lines
/// by the order of declaration of their languages.
pub open spec fn stands_before(a: LangStat, b: LangStat, order: LineOrder) -> bool {
    if a.lines == b.lines {
        a.lang.spec_index() < b.lang.spec_index()
    } else {
        match order {
            LineOrder::Ascending => a.lines < b.lines,
            LineOrder::Descending => a.lines > b.lines,
        }
    }
}

impl Report {
    /// The sums over all languages, each capped at the largest number that
    /// a counter holds.
    pub open spec fn spec_totals(&self) -> Tally {
        totals_upto(self@, LANG_COUNT as int)
    }

    /// The sums over all languages.
    pub fn totals(&self) -> (r: Totals)
        requires
            self.wf(),
        ensures
            r.tally() == self.spec_totals(),
    {
        let mut r = Totals::zero();
        let mut i: usize = 0;
        while i < LANG_COUNT
            invariant
                i <= LANG_COUNT,
                self.wf(),
                r.tally() == totals_upto(self@, i as int),
            decreases LANG_COUNT - i,
        {
            let lang: LangType = LangType::from_index(i);
            assert(self.entry(lang) == self.inner@[i as int]);
            match &self.inner[i] {
                Some(stat) => {
                    r.files = r.files.saturating_add(stat.files);
                    r.lines = r.lines.saturating_add(stat.lines);
                    r.code = r.code.saturating_add(stat.code);
                    r.comments = r.comments.saturating_add(stat.comments);
                    r.blanks = r.blanks.saturating_add(stat.blanks);
                    r.functions = r.functions.saturating_add(stat.functions);
                    r.classes = r.classes.saturating_add(stat.classes);
                },
                None => {},
            }
            i = i + 1;
        }
        r
    }

    /// Whether `rows` lists the entries of the report in the order `order`:
    /// every row is an entry, every entry is a row, and each row stands
    /// before the rows behind it.
    pub open spec fn lists(&self, rows: Seq<LangStat>, order: LineOrder) -> bool {
        &&& forall|i: int| 0 <= i < rows.len() ==> self.entry((#[trigger] rows[i]).lang) == Some(rows[i])
        &&& forall|lang: LangType|
            self@.contains_key(lang) ==> exists|i: int|
                0 <= i < rows.len() && (#[trigger] rows[i]).lang == lang
        &&& forall|i: int, j: int|
            0 <= i < j < rows.len() ==> stands_before(#[trigger] rows[i], #[trigger] rows[j], order)
    }

    /// Whether the slot `i` holds an entry that comes first, in the order
    /// `order`, among the entries whose slots `taken` does not mark.
    pub closed spec fn is_next(&self, taken: Seq<bool>, i: int, order: LineOrder) -> bool {
        &&& 0 <= i < self.inner@.len()
        &&& self.inner@[i] is Some
        &&& !taken[i]
        &&& forall|j: int|
            0 <= j < self.inner@.len() && j != i && !taken[j] && (#[trigger] self.inner@[j])
                is Some ==> stands_before(self.inner@[i]->0, self.inner@[j]->0, order)
    }

    /// The slot of the entry that comes first among those not yet taken.
    fn pick(&self, taken: &Vec<bool>, order: LineOrder) -> (r: Option<usize>)
        requires
            self.wf(),
            taken@.len() == self.inner@.len(),
        ensures
            match r {
                Some(i) => self.is_next(taken@, i as int, order),
                None => forall|j: int|
                    0 <= j < self.inner@.len() ==> taken@[j] || (#[trigger] self.inner@[j])
                        is None,
            },
    {
        let mut best: Option<usize> = None;
        let mut j: usize = 0;
        while j < self.inner.len()
            invariant
                j <= self.inner@.len(),
                self.wf(),
                taken@.len() == self.inner@.len(),
                match best {
                    Some(i) => i < j && self.inner@[i as int] is Some && !taken@[i as int]
                        && forall|k: int|
                        0 <= k < j && k != i && !taken@[k] && (#[trigger] self.inner@[k]) is Some
                            ==> stands_before(self.inner@[i as int]->0, self.inner@[k]->0, order),
                    None => forall|k: int|
                        0 <= k < j ==> taken@[k] || (#[trigger] self.inner@[k]) is None,
                },
            decreases self.inner@.len() - j,
        {
            if !taken[j] {
                match &self.inner[j] {
                    Some(stat) => {
                        match best {
                            Some(i) => {
                                let held: &LangStat = self.inner[i].as_ref().unwrap();
                                let better: bool = if stat.lines == held.lines {
                                    false
                                } else {
                                    match order {
                                        LineOrder::Ascending => stat.lines < held.lines,
                                        LineOrder::Descending => stat.lines > held.lines,
                                    }
                                };
                                if better {
                                    best = Some(j);
                                }
                            },
                            None => {
                                best = Some(j);
                            },
                        }
                    },
                    None => {},
                }
            }
            j = j + 1;
        }
        best
    }

    /// The entries of the report in the order `order`: by the number of
    /// lines, entries with the same number of lines in the order of
    /// declaration of their languages.
    pub fn sort_stats(&self, order: LineOrder) -> (r: Vec<&LangStat>)
        requires
            self.wf(),
        ensures
            self.lists(entries_of(r@), order),
    {
        let n: usize = self.inner.len();
        let mut taken: Vec<bool> = Vec::new();
        let mut k: usize = 0;
        while k < n
            invariant
                k <= n,
                n == self.inner@.len(),
                taken@.len() == k,
                forall|j: int| 0 <= j < k ==> !taken@[j],
            decreases n - k,
        {
            taken.push(false);
            k = k + 1;
        }
        proof {
            lemma_marked_none(taken@, n as int);
        }
        let mut out: Vec<&LangStat> = Vec::new();
        let mut left: usize = n;
        while left > 0
            invariant
                self.wf(),
                n == self.inner@.len(),
                taken@.len() == n,
                left <= n,
                out@.len() + left == n || left == 0,
                marked(taken@, n as int) == out@.len(),
                forall|i: int|
                    0 <= i < out@.len() ==> self.entry((#[trigger] out@[i]).lang) == Some(*out@[i])
                        && taken@[out@[i].lang.spec_index()],
                forall|j: int|
                    0 <= j < n && #[trigger] taken@[j] ==> exists|i: int|
                        0 <= i < out@.len() && (#[trigger] out@[i]).lang.spec_index() == j,
                forall|i: int, j: int|
                    0 <= i < j < out@.len() ==> stands_before(
                        *#[trigger] out@[i],
                        *#[trigger] out@[j],
                        order,
                    ),
                forall|i: int, j: int|
                    0 <= i < out@.len() && 0 <= j < n && !taken@[j] && (#[trigger] self.inner@[j])
                        is Some ==> stands_before(*#[trigger] out@[i], self.inner@[j]->0, order),
                left == 0 ==> forall|j: int|
                    0 <= j < n ==> taken@[j] || (#[trigger] self.inner@[j]) is None,
            decreases left,
        {
            match self.pick(&taken, order) {
                Some(i) => {
                    let stat: &LangStat = self.inner[i].as_ref().unwrap();
                    let ghost before = out@;
                    let ghost marks = taken@;
                    taken[i] = true;
                    out.push(stat);
                    proof {
                        assert(stat.lang.spec_index() == i);
                        assert(taken@ =~= marks.update(i as int, true));
                        lemma_marked_update(marks, i as int, n as int);
                        assert forall|j: int| 0 <= j < n && #[trigger] taken@[j] implies exists|
                            t: int,
                        |
                            0 <= t < out@.len() && (#[trigger] out@[t]).lang.spec_index() == j by {
                            if j == i {
                                assert(out@[before.len() as int].lang.spec_index() == j);
                            } else {
                                assert(marks[j]);
                                let t = choose|t: int|
                                    0 <= t < before.len() && (#[trigger] before[t]).lang.spec_index()
                                        == j;
                                assert(out@[t] == before[t]);
                            }
                        }
                    }
                    left = left - 1;
                    if left == 0 {
                        proof {
                            lemma_marked_full(taken@, n as int);
                        }
                    }
                },
                None => {
                    left = 0;
                },
            }
        }
        proof {
            let rows = entries_of(out@);
            assert forall|lang: LangType| self@.contains_key(lang) implies exists|i: int|
                0 <= i < rows.len() && (#[trigger] rows[i]).lang == lang by {
                let j = lang.spec_index();
                assert(self.inner@[j] is Some);
                assert(taken@[j]);
                let i = choose|i: int|
                    0 <= i < out@.len() && (#[trigger] out@[i]).lang.spec_index() == j;
                assert(out@[i].lang == lang) by {
                    lemma_index_injective(out@[i].lang, lang);
                }
                assert(rows[i].lang == lang);
            }
            assert forall|i: int| 0 <= i < rows.len() implies self.entry((#[trigger] rows[i]).lang)
                == Some(rows[i]) by {
                assert(rows[i] == *out@[i]);
            }
            assert forall|i: int, j: int| 0 <= i < j < rows.len() implies stands_before(
                #[trigger] rows[i],
                #[trigger] rows[j],
                order,
            ) by {
                assert(rows[i] == *out@[i] && rows[j] == *out@[j]);
            }
        }
        out
    }
}

/// How many of the first `n` marks are set.
pub open spec fn marked(marks: Seq<bool>, n: int) -> int
    decreases n,
{
    if n <= 0 {
        0
    } else {
        marked(marks, n - 1) + (if marks[n - 1] {
            1int
        } else {
            0int
        })
    }
}

/// Where no mark is set, the number of set marks is zero.
pub proof fn lemma_marked_none(marks: Seq<bool>, n: int)
    requires
        0 <= n <= marks.len(),
        forall|j: int| 0 <= j < n ==> !marks[j],
    ensures
        marked(marks, n) == 0,
    decreases n,
{
    if n > 0 {
        lemma_marked_none(marks, n - 1);
    }
}

/// Setting a mark that was not set adds one to the number of set marks.
pub proof fn lemma_marked_update(marks: Seq<bool>, i: int, n: int)
    requires
        0 <= i < marks.len(),
        0 <= n <= marks.len(),
        !marks[i],
    ensures
        marked(marks.update(i, true), n) == marked(marks, n) + (if i < n {
            1int
        } else {
            0int
        }),
    decreases n,
{
    if n > 0 {
        lemma_marked_update(marks, i, n - 1);
    }
}

/// No more marks are set than there are, and where as many are set as
/// there are, all are set.
pub proof fn lemma_marked_full(marks: Seq<bool>, n: int)
    requires
        0 <= n <= marks.len(),
    ensures
        0 <= marked(marks, n) <= n,
        marked(marks, n) == n ==> forall|j: int| 0 <= j < n ==> marks[j],
    decreases n,
{
    if n > 0 {
        lemma_marked_full(marks, n - 1);
    }
}

/// Two languages at the same position are the same language.
pub proof fn lemma_index_injective(a: LangType, b: LangType)
    requires
        a.spec_index() == b.spec_index(),
    ensures
        a == b,
{
}

/// One file as the report sees it: its language and its counters.
pub struct Record {
    pub lang: LangType,
    pub counts: Counts,
}

/// The number of the files of `lang` among `files`, and the sums of their
/// counters.
pub open spec fn tally_in(files: Seq<Record>, lang: LangType) -> Tally
    decreases files.len(),
{
    if files.len() == 0 {
        Tally::zero()
    } else if files.last().lang == lang {
        tally_in(files.drop_last(), lang).plus_file(files.last().counts)
    } else {
        tally_in(files.drop_last(), lang)
    }
}

/// The report of the files `files`: an entry for every language that has a
/// file among them, with the number of its files and the sums of their
/// counters.
pub open spec fn merged(files: Seq<Record>) -> Map<LangType, Tally> {
    Map::new(
        |lang: LangType| tally_in(files, lang).files > 0,
        |lang: LangType| tally_in(files, lang),
    )
}

/// The report of two sets of files together: an entry for every language
/// that has one in `a` or in `b`, with the sums of both.
pub open spec fn joined(a: Map<LangType, Tally>, b: Map<LangType, Tally>) -> Map<LangType, Tally> {
    Map::new(
        |lang: LangType| a.contains_key(lang) || b.contains_key(lang),
        |lang: LangType|
            (if a.contains_key(lang) {
                a[lang]
            } else {
                Tally::zero()
            }).plus(
                if b.contains_key(lang) {
                    b[lang]
                } else {
                    Tally::zero()
                },
            ),
    )
}

/// Whether `c` holds the files of `a` and of `b`, each in its own order,
/// woven into one sequence.
pub open spec fn interleaves(a: Seq<Record>, b: Seq<Record>, c: Seq<Record>) -> bool
    decreases c.len(),
{
    if c.len() == 0 {
        a.len() == 0 && b.len() == 0
    } else {
        ||| (a.len() > 0 && a.last() == c.last() && interleaves(a.drop_last(), b, c.drop_last()))
        ||| (b.len() > 0 && b.last() == c.last() && interleaves(a, b.drop_last(), c.drop_last()))
    }
}

/// A language without a file among `files` has the empty tally.
pub proof fn lemma_tally_none(files: Seq<Record>, lang: LangType)
    ensures
        tally_in(files, lang).files == 0 ==> tally_in(files, lang) == Tally::zero(),
    decreases files.len(),
{
    if files.len() > 0 {
        lemma_tally_none(files.drop_last(), lang);
    }
}

/// Adding a file to the report of some files gives the report of those
/// files and the new one.
pub proof fn lemma_absorb_is_merge(files: Seq<Record>, file: Record)
    ensures
        absorb(merged(files), file.lang, file.counts) == merged(files.push(file)),
{
    assert(files.push(file).drop_last() =~= files);
    lemma_tally_none(files, file.lang);
    assert(absorb(merged(files), file.lang, file.counts) =~= merged(files.push(file)));
}

/// The order in which two files are merged does not matter.
pub proof fn lemma_absorb_commutes(m: Map<LangType, Tally>, a: Record, b: Record)
    ensures
        absorb(absorb(m, a.lang, a.counts), b.lang, b.counts) == absorb(
            absorb(m, b.lang, b.counts),
            a.lang,
            a.counts,
        ),
{
    assert(absorb(absorb(m, a.lang, a.counts), b.lang, b.counts) =~= absorb(
        absorb(m, b.lang, b.counts),
        a.lang,
        a.counts,
    ));
}

/// The tally of a language over two sequences of files, one after the
/// other, is the sum of its tallies over each.
pub proof fn lemma_tally_concat(a: Seq<Record>, b: Seq<Record>, lang: LangType)
    ensures
        tally_in(a + b, lang) == tally_in(a, lang).plus(tally_in(b, lang)),
    decreases b.len(),
{
    if b.len() == 0 {
        assert(a + b =~= a);
    } else {
        assert((a + b).drop_last() =~= a + b.drop_last());
        lemma_tally_concat(a, b.drop_last(), lang);
    }
}

/// The tally of a language over files woven from two sequences is the sum
/// of its tallies over each.
pub proof fn lemma_tally_interleave(a: Seq<Record>, b: Seq<Record>, c: Seq<Record>, lang: LangType)
    requires
        interleaves(a, b, c),
    ensures
        tally_in(c, lang) == tally_in(a, lang).plus(tally_in(b, lang)),
    decreases c.len(),
{
    if c.len() > 0 {
        if a.len() > 0 && a.last() == c.last() && interleaves(a.drop_last(), b, c.drop_last()) {
            lemma_tally_interleave(a.drop_last(), b, c.drop_last(), lang);
        } else {
            lemma_tally_interleave(a, b.drop_last(), c.drop_last(), lang);
        }
    }
}

/// Taking one file out takes its counters out of the tally of its language
/// and leaves every other tally as it was.
pub proof fn lemma_tally_remove(files: Seq<Record>, k: int, lang: LangType)
    requires
        0 <= k < files.len(),
    ensures
        tally_in(files, lang) == (if files[k].lang == lang {
            tally_in(files.remove(k), lang).plus_file(files[k].counts)
        } else {
            tally_in(files.remove(k), lang)
        }),
    decreases files.len(),
{
    if k == files.len() - 1 {
        assert(files.remove(k) =~= files.drop_last());
    } else {
        assert(files.remove(k).drop_last() =~= files.drop_last().remove(k));
        assert(files.remove(k).last() == files.last());
        lemma_tally_remove(files.drop_last(), k, lang);
    }
}

/// The tally of a language does not depend on the order of the files.
pub proof fn lemma_tally_permutation(a: Seq<Record>, b: Seq<Record>, lang: LangType)
    requires
        a.to_multiset() == b.to_multiset(),
    ensures
        tally_in(a, lang) == tally_in(b, lang),
    decreases a.len(),
{
    broadcast use vstd::multiset::group_multiset_axioms;

    vstd::seq_lib::to_multiset_len(a);
    vstd::seq_lib::to_multiset_len(b);
    if a.len() > 0 {
        let x = a.last();
        let a0 = a.drop_last();
        assert(a =~= a0.push(x));
        vstd::seq_lib::to_multiset_build(a0, x);
        vstd::seq_lib::to_multiset_contains(b, x);
        assert(b.to_multiset().count(x) > 0);
        let k = choose|k: int| 0 <= k < b.len() && b[k] == x;
        let b0 = b.remove(k);
        vstd::seq_lib::to_multiset_remove(b, k);
        assert(a0.to_multiset() =~= a.to_multiset().remove(x));
        lemma_tally_permutation(a0, b0, lang);
        lemma_tally_remove(b, k, lang);
    }
}

/// Merging is commutative. The report of a list of files is the same in
/// whatever order the files are merged.
pub proof fn lemma_merge_permutation(a: Seq<Record>, b: Seq<Record>)
    requires
        a.to_multiset() == b.to_multiset(),
    ensures
        merged(a) == merged(b),
{
    assert forall|lang: LangType| tally_in(a, lang) == tally_in(b, lang) by {
        lemma_tally_permutation(a, b, lang);
    }
    assert(merged(a) =~= merged(b));
}

/// The report of a list of files that is split into two parts, which are
/// processed in any interleaving, is the sum of the reports of the parts.
pub proof fn lemma_merge_partition(a: Seq<Record>, b: Seq<Record>, c: Seq<Record>)
    requires
        interleaves(a, b, c),
    ensures
        merged(c) == joined(merged(a), merged(b)),
        merged(a + b) == merged(c),
{
    assert forall|lang: LangType|
        tally_in(c, lang) == tally_in(a, lang).plus(tally_in(b, lang)) && (tally_in(
            a,
            lang,
        ).files == 0 ==> tally_in(a, lang) == Tally::zero()) && (tally_in(b, lang).files == 0
            ==> tally_in(b, lang) == Tally::zero()) by {
        lemma_tally_interleave(a, b, c, lang);
        lemma_tally_none(a, lang);
        lemma_tally_none(b, lang);
    }
    assert forall|lang: LangType| tally_in(a + b, lang) == tally_in(a, lang).plus(
        tally_in(b, lang),
    ) by {
        lemma_tally_concat(a, b, lang);
    }
    assert(merged(c) =~= joined(merged(a), merged(b)));
    assert(merged(a + b) =~= merged(c));
}

} // verus!
