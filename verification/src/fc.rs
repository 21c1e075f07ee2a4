//! The two pipelines: what each does with the results of counting the
//! files, and how many workers each uses.

use vstd::prelude::*;
use vstd::string::StringExecFns;
use crate::config::Config;
use crate::counter::{Counter, CounterError, CounterFault};
use crate::langs::lang_type::LangType;
use crate::report::{
    absorb, lemma_absorb_is_merge, lemma_merge_permutation, merged, Record, Report,
};
use crate::stats::{FileStat, Tally};
use crate::walker::FileReader;

verus! {

/// The result of counting one file.
#[derive(Debug)]
pub struct Counted {
    pub path: String,
    pub result: Result<FileStat, CounterError>,
}

/// The result of counting one file as mathematical values.
pub enum Item {
    /// The file was counted.
    Counted(Record),
    /// The file holds binary content.
    Binary,
    /// The file could not be counted.
    Failed { path: Seq<char>, fault: CounterFault },
}

impl View for Counted {
    type V = Item;

    open spec fn view(&self) -> Item {
        match self.result {
            Ok(stat) => Item::Counted(Record { lang: stat.lang, counts: stat.counts() }),
            Err(e) => match e@ {
                CounterFault::BinaryFile => Item::Binary,
                fault => Item::Failed { path: self.path@, fault },
            },
        }
    }
}

/// The items of `results`.
pub open spec fn items_of(results: Seq<Counted>) -> Seq<Item> {
    Seq::new(results.len(), |i: int| results[i]@)
}

/// The files among `items` that were counted, in their order.
pub open spec fn records(items: Seq<Item>) -> Seq<Record>
    decreases items.len(),
{
    if items.len() == 0 {
        Seq::empty()
    } else {
        match items.last() {
            Item::Counted(record) => records(items.drop_last()).push(record),
            _ => records(items.drop_last()),
        }
    }
}

/// Whether the counters of the language of `record` still fit a `usize`
/// after `record` is added to `m`.
pub open spec fn has_room(m: Map<LangType, Tally>, record: Record) -> bool {
    (if m.contains_key(record.lang) {
        m[record.lang]
    } else {
        Tally::zero()
    }).plus_file(record.counts).fits()
}

/// How a run of the worker-pool pipeline ends.
pub enum Drained {
    /// Every result was looked at; the report is complete.
    Done(Map<LangType, Tally>),
    /// The result at this position reports a failure, and the run stops.
    Failed(int),
    /// The counters of the file at this position do not fit, and the run
    /// stops.
    Full(int),
}

/// How the worker-pool pipeline ends on the results `items`, read from
/// position `i` on in the order of submission, when the report so far is
/// `m`: a counted file is merged, a binary file is passed over, and the
/// first failure stops the run.
pub open spec fn drain_from(items: Seq<Item>, i: int, m: Map<LangType, Tally>) -> Drained
    decreases items.len() - i,
{
    if i < 0 || i >= items.len() {
        Drained::Done(m)
    } else {
        match items[i] {
            Item::Counted(record) => if has_room(m, record) {
                drain_from(items, i + 1, absorb(m, record.lang, record.counts))
            } else {
                Drained::Full(i)
            },
            Item::Binary => drain_from(items, i + 1, m),
            Item::Failed { .. } => Drained::Failed(i),
        }
    }
}

/// The report of the consumer of the asynchronous pipeline after one
/// result, when the report so far is `m`: a counted file is merged if its
/// counters fit; every other result leaves the report as it is.
pub open spec fn absorb_one(m: Map<LangType, Tally>, item: Item) -> Map<LangType, Tally> {
    match item {
        Item::Counted(record) => if has_room(m, record) {
            absorb(m, record.lang, record.counts)
        } else {
            m
        },
        _ => m,
    }
}

/// The report of the consumer of the asynchronous pipeline after the
/// results `items`, taken from position `i` on in the order of completion,
/// when the report so far is `m`. Nothing stops the run.
pub open spec fn absorb_from(items: Seq<Item>, i: int, m: Map<LangType, Tally>) -> Map<
    LangType,
    Tally,
>
    decreases items.len() - i,
{
    if i < 0 || i >= items.len() {
        m
    } else {
        absorb_from(items, i + 1, absorb_one(m, items[i]))
    }
}

/// The message of the failure to count the file `path`.
pub open spec fn failure_message(path: Seq<char>, fault: CounterFault) -> Seq<char> {
    "Failed to count file \""@ + path + "\": "@ + fault.message()
}

/// The message for a binary file that is passed over.
pub open spec fn skip_message(path: Seq<char>) -> Seq<char> {
    "Skipping binary file: "@ + path
}

/// The message for a file whose counters do not fit.
pub open spec fn overflow_message(path: Seq<char>) -> Seq<char> {
    "Counters overflow at file \""@ + path + "\""@
}

/// The number of processors of the host, which `num_cpus::get` reports and
/// documents as at least one.
#[verifier::external_body]
pub(crate) fn host_parallelism() -> (n: usize)
    ensures
        n >= 1,
{
    num_cpus::get()
}

/// The number of workers: the configured number, or that of the host where
/// none is configured.
pub fn choose_workers(configured: usize, host: usize) -> (n: usize)
    ensures
        n == (if configured > 0 {
            configured
        } else {
            host
        }),
{
    if configured > 0 {
        configured
    } else {
        host
    }
}

/// The message of the failure to count the file `path`.
fn describe_failure(path: &str, error: &CounterError) -> (msg: String)
    ensures
        msg@ == failure_message(path@, error@),
{
    let text: String = error.to_string();
    String::from_str("Failed to count file \"").concat(path).concat("\": ").concat(text.as_str())
}

/// The message for a file whose counters do not fit.
fn describe_overflow(path: &str) -> (msg: String)
    ensures
        msg@ == overflow_message(path@),
{
    String::from_str("Counters overflow at file \"").concat(path).concat("\"")
}

/// The pipeline that counts with a pool of workers.
#[derive(Debug)]
pub struct FileCounter {
    config: Config,
    reader: FileReader,
}

impl FileCounter {
    /// The settings that the pipeline was made with.
    pub closed spec fn config(&self) -> Config {
        self.config
    }

    pub fn new(config: Config) -> (r: Self)
        ensures
            r.config() == config,
            r.spec_reader().config()@ == config@,
    {
        let reader = FileReader::new(config.clone());
        FileCounter { config, reader }
    }

    /// The decisions of the walk.
    pub closed spec fn spec_reader(&self) -> FileReader {
        self.reader
    }

    /// The decisions of the walk.
    pub fn reader(&self) -> (r: &FileReader)
        ensures
            *r == self.spec_reader(),
    {
        &self.reader
    }

    /// The size of the pool: the configured number of workers, or the
    /// number of processors of the host.
    pub fn workers(&self) -> (n: usize)
        ensures
            self.config()@.num_workers > 0 ==> n == self.config()@.num_workers,
            n >= 1,
    {
        choose_workers(self.config.num_workers, host_parallelism())
    }

    /// Merges the results of the workers, in the order of submission, into
    /// one report. A binary file is passed over. The first failure stops the
    /// run with its message, and no later result is looked at.
    pub fn drain(results: &Vec<Counted>) -> (r: Result<Report, String>)
        ensures
            match r {
                Ok(report) => report.wf() && drain_from(
                    items_of(results@),
                    0,
                    Map::<LangType, Tally>::empty(),
                ) == Drained::Done(report@),
                Err(msg) => match drain_from(items_of(results@), 0, Map::<LangType, Tally>::empty()) {
                    Drained::Done(_) => false,
                    Drained::Failed(i) => 0 <= i < results@.len() && results@[i].result is Err
                        && msg@ == failure_message(results@[i].path@, results@[i].result->Err_0@),
                    Drained::Full(i) => 0 <= i < results@.len() && msg@ == overflow_message(
                        results@[i].path@,
                    ),
                },
            },
    {
        let ghost items = items_of(results@);
        let ghost goal = drain_from(items, 0, Map::<LangType, Tally>::empty());
        let mut report = Report::new();
        let mut i: usize = 0;
        while i < results.len()
            invariant
                i <= results@.len(),
                items == items_of(results@),
                report.wf(),
                goal == drain_from(items, 0, Map::<LangType, Tally>::empty()),
                goal == drain_from(items, i as int, report@),
            decreases results@.len() - i,
        {
            let item: &Counted = &results[i];
            assert(items[i as int] == item@);
            match &item.result {
                Ok(stat) => {
                    if !report.room_for(stat) {
                        return Err(describe_overflow(item.path.as_str()));
                    }
                    report.add(stat.clone());
                },
                Err(CounterError::BinaryFile) => {},
                Err(e) => {
                    return Err(describe_failure(item.path.as_str(), e));
                },
            }
            i = i + 1;
        }
        Ok(report)
    }
}

/// What the consumer of the asynchronous pipeline did with one result.
#[derive(Debug)]
pub enum Absorbed {
    /// The file's record was merged into the report.
    Merged,
    /// The file holds binary content and was passed over; the text is for
    /// the log.
    Skipped(String),
    /// The file could not be counted, or its counters do not fit; the text
    /// is for the log, and the run goes on.
    Logged(String),
}

/// The pipeline that counts with producers, a bounded channel and a
/// consumer.
#[derive(Debug)]
pub struct AsyncFileCounter {
    config: Config,
    counter: Counter,
    reader: FileReader,
    num_workers: usize,
}

impl AsyncFileCounter {
    /// The settings that the pipeline was made with.
    pub closed spec fn config(&self) -> Config {
        self.config
    }

    /// The number of files that are counted at the same time.
    pub closed spec fn spec_workers(&self) -> usize {
        self.num_workers
    }

    /// The pipeline with the configured number of workers, or with as many
    /// as the host has processors where none is configured.
    pub fn new(config: Config) -> (r: Self)
        ensures
            r.config() == config,
            r.spec_reader().config()@ == config@,
            r.spec_counter().config()@ == config@,
            config@.num_workers > 0 ==> r.spec_workers() == config@.num_workers,
            r.spec_workers() >= 1,
    {
        let num_workers: usize = choose_workers(config.num_workers, host_parallelism());
        let counter = Counter::new(config.clone());
        let reader = FileReader::new(config.clone());
        AsyncFileCounter { config, counter, reader, num_workers }
    }

    /// The pipeline with `num_workers` workers.
    pub fn with_workers(self, num_workers: usize) -> (r: Self)
        ensures
            r.config() == self.config(),
            r.spec_reader() == self.spec_reader(),
            r.spec_counter() == self.spec_counter(),
            r.spec_workers() == num_workers,
    {
        let mut r = self;
        r.num_workers = num_workers;
        r
    }

    /// The number of files that are counted at the same time.
    pub fn workers(&self) -> (n: usize)
        ensures
            n == self.spec_workers(),
    {
        self.num_workers
    }

    /// The capacity of the channel between the producers and the consumer:
    /// twice the number of workers.
    pub fn channel_capacity(&self) -> (n: usize)
        requires
            self.spec_workers() <= usize::MAX / 2,
        ensures
            n == 2 * self.spec_workers(),
    {
        self.num_workers * 2
    }

    /// The decisions of the walk.
    pub closed spec fn spec_reader(&self) -> FileReader {
        self.reader
    }

    /// The counter of single files.
    pub closed spec fn spec_counter(&self) -> Counter {
        self.counter
    }

    /// The decisions of the walk.
    pub fn reader(&self) -> (r: &FileReader)
        ensures
            *r == self.spec_reader(),
    {
        &self.reader
    }

    /// The counter of single files.
    pub fn counter(&self) -> (r: &Counter)
        ensures
            *r == self.spec_counter(),
    {
        &self.counter
    }

    /// What the consumer does with one result: the record of a counted file
    /// is merged into the report; a binary file is passed over; a failure
    /// is handed back for the log, and the report stays as it is.
    pub fn absorb(report: &mut Report, item: &Counted) -> (r: Absorbed)
        requires
            old(report).wf(),
        ensures
            final(report).wf(),
            final(report)@ == absorb_one(old(report)@, item@),
            match item@ {
                Item::Counted(record) => if has_room(old(report)@, record) {
                    r is Merged
                } else {
                    r matches Absorbed::Logged(msg) && msg@ == overflow_message(item.path@)
                },
                Item::Binary => r matches Absorbed::Skipped(msg) && msg@ == skip_message(
                    item.path@,
                ),
                Item::Failed { path, fault } => r matches Absorbed::Logged(msg) && msg@
                    == failure_message(path, fault),
            },
    {
        match &item.result {
            Ok(stat) => {
                if report.room_for(stat) {
                    report.add(stat.clone());
                    Absorbed::Merged
                } else {
                    Absorbed::Logged(describe_overflow(item.path.as_str()))
                }
            },
            Err(CounterError::BinaryFile) => Absorbed::Skipped(
                String::from_str("Skipping binary file: ").concat(item.path.as_str()),
            ),
            Err(e) => Absorbed::Logged(describe_failure(item.path.as_str(), e)),
        }
    }
}

/// The records of a sequence with one more item.
pub proof fn lemma_records_push(items: Seq<Item>, item: Item)
    ensures
        records(items.push(item)) == (match item {
            Item::Counted(record) => records(items).push(record),
            _ => records(items),
        }),
{
    assert(items.push(item).drop_last() =~= items);
}

/// A run of the worker-pool pipeline that comes to its end has merged
/// exactly the files that were counted.
pub proof fn lemma_drain_merges(items: Seq<Item>, i: int)
    requires
        0 <= i <= items.len(),
        drain_from(items, i, merged(records(items.take(i)))) is Done,
    ensures
        drain_from(items, i, merged(records(items.take(i)))) == Drained::Done(
            merged(records(items)),
        ),
    decreases items.len() - i,
{
    if i == items.len() {
        assert(items.take(i) =~= items);
    } else {
        assert(items.take(i + 1) =~= items.take(i).push(items[i]));
        lemma_records_push(items.take(i), items[i]);
        match items[i] {
            Item::Counted(record) => {
                lemma_absorb_is_merge(records(items.take(i)), record);
            },
            _ => {},
        }
        lemma_drain_merges(items, i + 1);
    }
}

/// Where every file's counters fit, the consumer of the asynchronous
/// pipeline has merged exactly the files that were counted.
pub proof fn lemma_absorb_merges(items: Seq<Item>, i: int)
    requires
        0 <= i <= items.len(),
        absorb_fits(items, i, merged(records(items.take(i)))),
    ensures
        absorb_from(items, i, merged(records(items.take(i)))) == merged(records(items)),
    decreases items.len() - i,
{
    if i == items.len() {
        assert(items.take(i) =~= items);
    } else {
        assert(items.take(i + 1) =~= items.take(i).push(items[i]));
        lemma_records_push(items.take(i), items[i]);
        match items[i] {
            Item::Counted(record) => {
                lemma_absorb_is_merge(records(items.take(i)), record);
            },
            _ => {},
        }
        lemma_absorb_merges(items, i + 1);
    }
}

/// Whether the counters of every counted file among `items`, from position
/// `i` on, fit when the files are merged in this order into `m`.
pub open spec fn absorb_fits(items: Seq<Item>, i: int, m: Map<LangType, Tally>) -> bool
    decreases items.len() - i,
{
    if i < 0 || i >= items.len() {
        true
    } else {
        match items[i] {
            Item::Counted(record) => has_room(m, record) && absorb_fits(
                items,
                i + 1,
                absorb(m, record.lang, record.counts),
            ),
            _ => absorb_fits(items, i + 1, m),
        }
    }
}

/// The counted files of a permutation are a permutation of the counted
/// files.
pub proof fn lemma_records_permutation(a: Seq<Item>, b: Seq<Item>)
    requires
        a.to_multiset() == b.to_multiset(),
    ensures
        records(a).to_multiset() == records(b).to_multiset(),
    decreases a.len(),
{
    broadcast use vstd::multiset::group_multiset_axioms;

    vstd::seq_lib::to_multiset_len(a);
    vstd::seq_lib::to_multiset_len(b);
    if a.len() == 0 {
        assert(records(a) =~= records(b));
    } else {
        let x = a.last();
        let a0 = a.drop_last();
        assert(a =~= a0.push(x));
        vstd::seq_lib::to_multiset_build(a0, x);
        vstd::seq_lib::to_multiset_contains(b, x);
        assert(b.to_multiset().count(x) > 0);
        let k = choose|k: int| 0 <= k < b.len() && b[k] == x;
        let b0 = b.remove(k);
        vstd::seq_lib::to_multiset_remove(b, k);
        assert(a0.to_multiset() =~= a.to_multiset().remove(x));
        lemma_records_permutation(a0, b0);
        lemma_records_remove(b, k);
        match x {
            Item::Counted(record) => {
                vstd::seq_lib::to_multiset_build(records(a0), record);
                let j = records(b.take(k)).len() as int;
                vstd::seq_lib::to_multiset_insert(records(b0), j, record);
            },
            _ => {},
        }
    }
}

/// The counted files of a sequence without the item at `k` are the counted
/// files of the sequence without the record of that item.
pub proof fn lemma_records_remove(items: Seq<Item>, k: int)
    requires
        0 <= k < items.len(),
    ensures
        0 <= records(items.take(k)).len() <= records(items.remove(k)).len(),
        records(items) == (match items[k] {
            Item::Counted(record) => records(items.remove(k)).insert(
                records(items.take(k)).len() as int,
                record,
            ),
            _ => records(items.remove(k)),
        }),
    decreases items.len(),
{
    if k == items.len() - 1 {
        assert(items.remove(k) =~= items.drop_last());
        assert(items.take(k) =~= items.drop_last());
        match items[k] {
            Item::Counted(record) => {
                assert(records(items.drop_last()).insert(
                    records(items.drop_last()).len() as int,
                    record,
                ) =~= records(items.drop_last()).push(record));
            },
            _ => {},
        }
    } else {
        assert(items.remove(k).drop_last() =~= items.drop_last().remove(k));
        assert(items.remove(k).last() == items.last());
        assert(items.drop_last().take(k) =~= items.take(k));
        lemma_records_remove(items.drop_last(), k);
        let inner = records(items.drop_last().remove(k));
        let j = records(items.take(k)).len() as int;
        match items[k] {
            Item::Counted(record) => {
                match items.last() {
                    Item::Counted(last) => {
                        assert(inner.insert(j, record).push(last) =~= inner.push(last).insert(
                            j,
                            record,
                        ));
                    },
                    _ => {},
                }
            },
            _ => {},
        }
    }
}

/// Both pipelines give the same totals. Let the asynchronous pipeline merge
/// the results of the same files in any order of completion. Where no file
/// fails and all counters fit, its report holds for every language the same
/// number of files and the same sums as that of the worker-pool pipeline,
/// whatever the number of workers: neither report depends on it.
pub proof fn lemma_pipelines_agree(submitted: Seq<Item>, completed: Seq<Item>)
    requires
        submitted.to_multiset() == completed.to_multiset(),
        drain_from(submitted, 0, Map::<LangType, Tally>::empty()) is Done,
        absorb_fits(completed, 0, Map::<LangType, Tally>::empty()),
    ensures
        drain_from(submitted, 0, Map::<LangType, Tally>::empty()) == Drained::Done(
            absorb_from(completed, 0, Map::<LangType, Tally>::empty()),
        ),
{
    assert(submitted.take(0) =~= Seq::<Item>::empty());
    assert(completed.take(0) =~= Seq::<Item>::empty());
    assert(merged(Seq::<Record>::empty()) =~= Map::<LangType, Tally>::empty());
    lemma_drain_merges(submitted, 0);
    lemma_absorb_merges(completed, 0);
    lemma_records_permutation(submitted, completed);
    lemma_merge_permutation(records(submitted), records(completed));
}

/// A run can be repeated. Two runs of the worker-pool pipeline over the
/// same results end alike, and two runs over the same files in different
/// orders, which both come to their end, give the same report.
pub proof fn lemma_runs_repeat(first: Seq<Item>, second: Seq<Item>)
    requires
        first.to_multiset() == second.to_multiset(),
        drain_from(first, 0, Map::<LangType, Tally>::empty()) is Done,
        drain_from(second, 0, Map::<LangType, Tally>::empty()) is Done,
    ensures
        drain_from(first, 0, Map::<LangType, Tally>::empty()) == drain_from(
            second,
            0,
            Map::<LangType, Tally>::empty(),
        ),
{
    assert(first.take(0) =~= Seq::<Item>::empty());
    assert(second.take(0) =~= Seq::<Item>::empty());
    assert(merged(Seq::<Record>::empty()) =~= Map::<LangType, Tally>::empty());
    lemma_drain_merges(first, 0);
    lemma_drain_merges(second, 0);
    lemma_records_permutation(first, second);
    lemma_merge_permutation(records(first), records(second));
}

/// A binary file is left out and stops nothing. The report of either
/// pipeline is the same with and without the result of a binary file, and
/// the worker-pool pipeline comes to its end with it exactly if it does
/// without it.
pub proof fn lemma_binary_left_out(items: Seq<Item>, k: int)
    requires
        0 <= k < items.len(),
        items[k] is Binary,
    ensures
        records(items) == records(items.remove(k)),
        forall|m: Map<LangType, Tally>|
            (#[trigger] drain_from(items, 0, m)) is Done ==> drain_from(items, 0, m)
                == drain_from(items.remove(k), 0, m),
        forall|m: Map<LangType, Tally>| #[trigger]
            absorb_from(items, 0, m) == absorb_from(items.remove(k), 0, m),
{
    lemma_records_remove(items, k);
    assert forall|m: Map<LangType, Tally>|
        (#[trigger] drain_from(items, 0, m)) is Done implies drain_from(items, 0, m)
            == drain_from(items.remove(k), 0, m) by {
        lemma_drain_skips(items, k, 0, m);
    }
    assert forall|m: Map<LangType, Tally>| #[trigger]
        absorb_from(items, 0, m) == absorb_from(items.remove(k), 0, m) by {
        lemma_absorb_skips(items, k, 0, m);
    }
}

/// The worker-pool pipeline ends alike with and without a binary file.
pub proof fn lemma_drain_skips(items: Seq<Item>, k: int, i: int, m: Map<LangType, Tally>)
    requires
        0 <= i <= k < items.len(),
        items[k] is Binary,
    ensures
        drain_from(items, i, m) is Done ==> drain_from(items, i, m) == drain_from(
            items.remove(k),
            i,
            m,
        ),
    decreases k - i,
{
    let rest = items.remove(k);
    if i == k {
        lemma_drain_shift(items, k, i + 1, m);
    } else {
        assert(rest[i] == items[i]);
        match items[i] {
            Item::Counted(record) => {
                if has_room(m, record) {
                    lemma_drain_skips(items, k, i + 1, absorb(m, record.lang, record.counts));
                }
            },
            Item::Binary => {
                lemma_drain_skips(items, k, i + 1, m);
            },
            Item::Failed { .. } => {},
        }
    }
}

/// Behind the place of a removed item, the worker-pool pipeline reads the
/// same results one position earlier.
pub proof fn lemma_drain_shift(items: Seq<Item>, k: int, i: int, m: Map<LangType, Tally>)
    requires
        0 <= k < i <= items.len(),
    ensures
        drain_from(items, i, m) is Done ==> drain_from(items, i, m) == drain_from(
            items.remove(k),
            i - 1,
            m,
        ),
    decreases items.len() - i,
{
    let rest = items.remove(k);
    if i < items.len() {
        assert(rest[i - 1] == items[i]);
        match items[i] {
            Item::Counted(record) => {
                if has_room(m, record) {
                    lemma_drain_shift(items, k, i + 1, absorb(m, record.lang, record.counts));
                }
            },
            Item::Binary => {
                lemma_drain_shift(items, k, i + 1, m);
            },
            Item::Failed { .. } => {},
        }
    }
}

/// The consumer's report is the same with and without a binary file.
pub proof fn lemma_absorb_skips(items: Seq<Item>, k: int, i: int, m: Map<LangType, Tally>)
    requires
        0 <= i <= k < items.len(),
        items[k] is Binary,
    ensures
        absorb_from(items, i, m) == absorb_from(items.remove(k), i, m),
    decreases k - i,
{
    let rest = items.remove(k);
    if i == k {
        lemma_absorb_shift(items, k, i + 1, m);
    } else {
        assert(rest[i] == items[i]);
        lemma_absorb_skips(items, k, i + 1, absorb_one(m, items[i]));
    }
}

/// Behind the place of a removed item, the consumer takes the same results
/// one position earlier.
pub proof fn lemma_absorb_shift(items: Seq<Item>, k: int, i: int, m: Map<LangType, Tally>)
    requires
        0 <= k < i <= items.len(),
    ensures
        absorb_from(items, i, m) == absorb_from(items.remove(k), i - 1, m),
    decreases items.len() - i,
{
    let rest = items.remove(k);
    if i < items.len() {
        assert(rest[i - 1] == items[i]);
        lemma_absorb_shift(items, k, i + 1, absorb_one(m, items[i]));
    }
}

} // verus!
