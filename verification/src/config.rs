//! What the sampler is configured with.

use crate::statistic::PerfStatistic;
use vstd::prelude::*;

verus! {

/// The items of `items`, each kept where it occurs first.
pub open spec fn distinct(items: Seq<PerfStatistic>) -> Seq<PerfStatistic>
    decreases items.len(),
{
    if items.len() == 0 {
        Seq::empty()
    } else {
        let earlier = distinct(items.drop_last());
        if earlier.contains(items.last()) {
            earlier
        } else {
            earlier.push(items.last())
        }
    }
}

/// `distinct` keeps every item once: the result holds nothing twice and
/// holds exactly the items of the input.
pub proof fn lemma_distinct(items: Seq<PerfStatistic>)
    ensures
        distinct(items).no_duplicates(),
        distinct(items).len() <= items.len(),
        forall|statistic: PerfStatistic|
            distinct(items).contains(statistic) <==> items.contains(statistic),
    decreases items.len(),
{
    if items.len() > 0 {
        let front = items.drop_last();
        let earlier = distinct(front);
        lemma_distinct(front);
        assert forall|statistic: PerfStatistic|
            distinct(items).contains(statistic) <==> items.contains(statistic) by {
            if items.contains(statistic) {
                let i = choose|i: int| 0 <= i < items.len() && items[i] == statistic;
                if i < front.len() {
                    assert(front[i] == statistic);
                    assert(front.contains(statistic));
                    assert(earlier.contains(statistic));
                    let j = choose|j: int| 0 <= j < earlier.len() && earlier[j] == statistic;
                    assert(distinct(items)[j] == statistic);
                } else if !earlier.contains(statistic) {
                    assert(distinct(items)[earlier.len() as int] == statistic);
                }
            }
            if distinct(items).contains(statistic) {
                let j = choose|j: int|
                    0 <= j < distinct(items).len() && distinct(items)[j] == statistic;
                if j < earlier.len() {
                    assert(earlier[j] == statistic);
                    assert(earlier.contains(statistic));
                    assert(front.contains(statistic));
                    let i = choose|i: int| 0 <= i < front.len() && front[i] == statistic;
                    assert(items[i] == statistic);
                } else {
                    assert(items[items.len() - 1] == statistic);
                }
            }
        }
    }
}

/// A list that holds nothing twice is left as it is.
pub proof fn lemma_distinct_of_distinct(items: Seq<PerfStatistic>)
    requires
        items.no_duplicates(),
    ensures
        distinct(items) == items,
    decreases items.len(),
{
    if items.len() > 0 {
        let front = items.drop_last();
        lemma_distinct_of_distinct(front);
        if front.contains(items.last()) {
            let i = choose|i: int| 0 <= i < front.len() && front[i] == items.last();
            assert(items[i] == items[items.len() - 1]);
        }
        assert(front.push(items.last()) =~= items);
    }
}

/// The configuration as plain values.
pub struct ConfigView {
    pub enabled: bool,
    pub statistics: Seq<PerfStatistic>,
    pub window: usize,
}

/// The configuration of the sampler: whether it runs at all, the set of
/// statistics to track, and the window that each channel is registered with.
pub struct Config {
    enabled: bool,
    statistics: Vec<PerfStatistic>,
    window: usize,
}

impl View for Config {
    type V = ConfigView;

    closed spec fn view(&self) -> ConfigView {
        ConfigView {
            enabled: self.enabled,
            statistics: self.statistics@,
            window: self.window,
        }
    }
}

/// Whether `statistic` is among `items`.
fn holds(items: &Vec<PerfStatistic>, statistic: PerfStatistic) -> (found: bool)
    ensures
        found == items@.contains(statistic),
{
    let mut i: usize = 0;
    while i < items.len()
        invariant
            i <= items@.len(),
            forall|k: int| 0 <= k < i ==> items@[k] != statistic,
        decreases items@.len() - i,
    {
        if items[i] == statistic {
            return true;
        }
        i += 1;
    }
    false
}

impl Config {
    #[verifier::type_invariant]
    spec fn is_set(&self) -> bool {
        self.statistics@.no_duplicates()
    }

    /// A configuration of the given values. The statistics are a set: one
    /// that is named more than once counts once, at its first place.
    pub fn new(enabled: bool, statistics: Vec<PerfStatistic>, window: usize) -> (config: Config)
        ensures
            config@ == (ConfigView { enabled, statistics: distinct(statistics@), window }),
    {
        let mut kept: Vec<PerfStatistic> = Vec::new();
        let mut i: usize = 0;
        while i < statistics.len()
            invariant
                i <= statistics@.len(),
                kept@ == distinct(statistics@.take(i as int)),
            decreases statistics@.len() - i,
        {
            let statistic = statistics[i];
            let known = holds(&kept, statistic);
            proof {
                assert(statistics@.take(i + 1).drop_last() =~= statistics@.take(i as int));
            }
            if !known {
                kept.push(statistic);
            }
            i += 1;
        }
        proof {
            assert(statistics@.take(i as int) =~= statistics@);
            lemma_distinct(statistics@);
        }
        Config { enabled, statistics: kept, window }
    }

    /// Whether the sampler is to run.
    pub fn enabled(&self) -> (enabled: bool)
        ensures
            enabled == self@.enabled,
    {
        self.enabled
    }

    /// The statistics to track. None occurs twice.
    pub fn statistics(&self) -> (statistics: &Vec<PerfStatistic>)
        ensures
            statistics@ == self@.statistics,
            statistics@.no_duplicates(),
    {
        proof {
            use_type_invariant(self);
        }
        &self.statistics
    }

    /// The window that each channel is registered with.
    pub fn window(&self) -> (window: usize)
        ensures
            window == self@.window,
    {
        self.window
    }
}

} // verus!
