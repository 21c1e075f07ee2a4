//! The shares of the languages in a chart of the report.

use vstd::prelude::*;
use crate::langs::registry::{display_name, label_of};
use crate::report::{capped, entries_of, LineOrder, Report};
use crate::stats::LangStat;

verus! {

/// The size of a chart and the number of languages that it names.
#[derive(Debug, Clone, Copy, PartialEq, Eq, Structural)]
pub struct ChartConfig {
    pub width: u32,
    pub height: u32,
    pub top_n: u32,
}

impl Default for ChartConfig {
    fn default() -> (config: ChartConfig)
        ensures
            config == (ChartConfig { width: 1024, height: 798, top_n: 10 }),
    {
        ChartConfig { width: 1024, height: 798, top_n: 10 }
    }
}

/// One share of a chart as mathematical values: a name and a number of
/// lines.
pub struct ShareView {
    pub name: Seq<char>,
    pub lines: nat,
}

/// The shares of `v`.
pub open spec fn shares_of(v: Seq<(String, usize)>) -> Seq<ShareView> {
    Seq::new(v.len(), |i: int| ShareView { name: v[i].0@, lines: v[i].1 as nat })
}

/// The lines of all of `rows`, capped at the largest number that a counter
/// holds.
pub open spec fn lines_of(rows: Seq<LangStat>) -> nat
    decreases rows.len(),
{
    if rows.len() == 0 {
        0
    } else {
        capped(lines_of(rows.drop_last()), rows.last().lines as nat)
    }
}

/// The shares of the languages `rows`: one share for each of the first
/// `top_n`, and one named `Other` for the lines of all the rest, if there is
/// a rest.
pub open spec fn shares(rows: Seq<LangStat>, top_n: nat) -> Seq<ShareView> {
    if rows.len() > top_n {
        Seq::new(
            top_n,
            |i: int| ShareView { name: label_of(rows[i].lang), lines: rows[i].lines as nat },
        ).push(ShareView { name: "Other"@, lines: lines_of(rows.skip(top_n as int)) })
    } else {
        Seq::new(
            rows.len(),
            |i: int| ShareView { name: label_of(rows[i].lang), lines: rows[i].lines as nat },
        )
    }
}

/// Prepares the chart of a report.
pub struct ChartDrawer<'a> {
    config: ChartConfig,
    report: &'a Report,
}

impl<'a> ChartDrawer<'a> {
    /// The size of the chart and the number of languages that it names.
    pub closed spec fn config(&self) -> ChartConfig {
        self.config
    }

    /// The report that is drawn.
    pub closed spec fn report(&self) -> &'a Report {
        self.report
    }

    /// The drawer of `report`, with the given size or with the usual one.
    pub fn new(report: &'a Report, config: Option<ChartConfig>) -> (r: Self)
        ensures
            r.report() == report,
            r.config() == (match config {
                Some(c) => c,
                None => ChartConfig { width: 1024, height: 798, top_n: 10 },
            }),
    {
        let config = match config {
            Some(c) => c,
            None => ChartConfig::default(),
        };
        ChartDrawer { config, report }
    }

    /// The size of the chart.
    pub fn size(&self) -> (r: (u32, u32))
        ensures
            r == (self.config().width, self.config().height),
    {
        (self.config.width, self.config.height)
    }

    /// The shares of the chart: the languages with the fewest lines first,
    /// as many as the chart names, and the rest as one share.
    pub fn get_sorted(&self) -> (r: Vec<(String, usize)>)
        requires
            self.report().wf(),
        ensures
            exists|rows: Seq<LangStat>|
                #![trigger self.report().lists(rows, LineOrder::Ascending)]
                self.report().lists(rows, LineOrder::Ascending) && shares_of(r@) == shares(
                    rows,
                    self.config().top_n as nat,
                ),
    {
        let items: Vec<&LangStat> = self.report.sort_stats(LineOrder::Ascending);
        let ghost rows = entries_of(items@);
        let top_n: usize = self.config.top_n as usize;
        let named: usize = if items.len() > top_n {
            top_n
        } else {
            items.len()
        };
        let mut out: Vec<(String, usize)> = Vec::new();
        let mut i: usize = 0;
        while i < named
            invariant
                i <= named <= items@.len(),
                rows == entries_of(items@),
                out@.len() == i,
                forall|j: int|
                    0 <= j < i ==> (#[trigger] out@[j]).0@ == label_of(rows[j].lang) && out@[j].1
                        == rows[j].lines,
            decreases named - i,
        {
            let stat: &LangStat = items[i];
            out.push((display_name(&stat.lang).to_owned(), stat.lines));
            i = i + 1;
        }
        if items.len() > top_n {
            let mut other: usize = 0;
            let mut k: usize = top_n;
            let ghost rest = rows.skip(top_n as int);
            assert(rest.take(0) =~= Seq::<LangStat>::empty());
            while k < items.len()
                invariant
                    top_n <= k <= items@.len(),
                    rows == entries_of(items@),
                    rest == rows.skip(top_n as int),
                    other == lines_of(rest.take(k - top_n)),
                decreases items@.len() - k,
            {
                proof {
                    assert(rest.take(k - top_n + 1).drop_last() =~= rest.take(k - top_n));
                    assert(rest.take(k - top_n + 1).last() == rows[k as int]);
                }
                other = other.saturating_add(items[k].lines);
                k = k + 1;
            }
            assert(rest.take(items@.len() - top_n) =~= rest);
            out.push(("Other".to_owned(), other));
        }
        assert(shares_of(out@) =~= shares(rows, self.config().top_n as nat));
        out
    }
}

} // verus!
