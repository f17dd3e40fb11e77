//! The counter pool: for each tracked statistic one handle per core.

use crate::config::Config;
use crate::counter::Counter;
use crate::statistic::PerfStatistic;
use vstd::prelude::*;

verus! {

/// What became of one configured statistic when the pool was built.
#[derive(Clone, Copy, Debug, PartialEq, Eq, Structural)]
pub struct Attempt {
    /// The statistic that handles were asked for.
    pub statistic: PerfStatistic,
    /// The number of handles that were created, on the cores from 0 on,
    /// before the first refusal or until every core had one.
    pub created: u64,
}

/// The statistics of the attempts that gave a handle on every core, in the
/// order of the attempts.
pub open spec fn retained(log: Seq<Attempt>, cores: nat) -> Seq<PerfStatistic>
    decreases log.len(),
{
    if log.len() == 0 {
        Seq::empty()
    } else if log.last().created == cores {
        retained(log.drop_last(), cores).push(log.last().statistic)
    } else {
        retained(log.drop_last(), cores)
    }
}

/// Whether `log` is a record of one attempt for each of `statistics`, in
/// their order, none with more handles than there are cores.
pub open spec fn attempts_cover(
    log: Seq<Attempt>,
    statistics: Seq<PerfStatistic>,
    cores: nat,
) -> bool {
    &&& log.len() == statistics.len()
    &&& forall|i: int|
        0 <= i < log.len() ==> (#[trigger] log[i]).statistic == statistics[i] && log[i].created
            <= cores
}

/// A statistic is retained exactly if one of its attempts gave a handle on
/// every core.
pub proof fn lemma_retained_contains(log: Seq<Attempt>, cores: nat, statistic: PerfStatistic)
    ensures
        retained(log, cores).contains(statistic) <==> exists|i: int|
            0 <= i < log.len() && (#[trigger] log[i]).statistic == statistic && log[i].created
                == cores,
    decreases log.len(),
{
    if log.len() > 0 {
        let front = log.drop_last();
        let last = log.last();
        lemma_retained_contains(front, cores, statistic);
        if retained(log, cores).contains(statistic) {
            let j = choose|j: int|
                0 <= j < retained(log, cores).len() && retained(log, cores)[j] == statistic;
            if j < retained(front, cores).len() {
                assert(retained(front, cores)[j] == statistic);
                assert(retained(front, cores).contains(statistic));
                let i = choose|i: int|
                    0 <= i < front.len() && (#[trigger] front[i]).statistic == statistic
                        && front[i].created == cores;
                assert(log[i].statistic == statistic && log[i].created == cores);
            } else {
                assert(log[log.len() - 1].statistic == statistic);
            }
        }
        if exists|i: int|
            0 <= i < log.len() && (#[trigger] log[i]).statistic == statistic && log[i].created
                == cores {
            let i = choose|i: int|
                0 <= i < log.len() && (#[trigger] log[i]).statistic == statistic
                    && log[i].created == cores;
            if i < front.len() {
                assert(front[i].statistic == statistic && front[i].created == cores);
                assert(retained(front, cores).contains(statistic));
                let j = choose|j: int|
                    0 <= j < retained(front, cores).len() && retained(front, cores)[j]
                        == statistic;
                assert(retained(log, cores)[j] == statistic);
            } else {
                assert(retained(log, cores)[retained(front, cores).len() as int] == statistic);
            }
        }
    }
}

/// Where no statistic is attempted twice, nothing is retained twice.
pub proof fn lemma_retained_distinct(log: Seq<Attempt>, statistics: Seq<PerfStatistic>, cores: nat)
    requires
        attempts_cover(log, statistics, cores),
        statistics.no_duplicates(),
    ensures
        retained(log, cores).no_duplicates(),
    decreases log.len(),
{
    if log.len() > 0 {
        let front = log.drop_last();
        let last = log.last();
        lemma_retained_distinct(front, statistics.drop_last(), cores);
        lemma_retained_contains(front, cores, last.statistic);
        if retained(front, cores).contains(last.statistic) {
            let i = choose|i: int|
                0 <= i < front.len() && (#[trigger] front[i]).statistic == last.statistic
                    && front[i].created == cores;
            assert(log[i].statistic == statistics[i]);
            assert(log[log.len() - 1].statistic == statistics[log.len() - 1]);
        }
    }
}

/// For every configured statistic: if a handle was created on every core,
/// the statistic is tracked; if creation failed on any core, it is not.
pub proof fn lemma_tracked_iff_complete(
    log: Seq<Attempt>,
    statistics: Seq<PerfStatistic>,
    cores: nat,
    i: int,
)
    requires
        attempts_cover(log, statistics, cores),
        statistics.no_duplicates(),
        0 <= i < statistics.len(),
    ensures
        log[i].created == cores ==> retained(log, cores).contains(statistics[i]),
        log[i].created < cores ==> !retained(log, cores).contains(statistics[i]),
{
    lemma_retained_contains(log, cores, statistics[i]);
    if retained(log, cores).contains(statistics[i]) {
        let k = choose|k: int|
            0 <= k < log.len() && (#[trigger] log[k]).statistic == statistics[i] && log[k].created
                == cores;
        assert(statistics[k] == statistics[i]);
    }
}

/// The handles of one tracked statistic, one for each core.
struct Entry<C> {
    statistic: PerfStatistic,
    counters: Vec<C>,
}

/// The counter pool. A statistic is in it only with a handle for every core,
/// and no statistic is in it twice.
pub struct CounterPool<C> {
    entries: Vec<Entry<C>>,
    cores: u64,
}

/// The outcomes of one round of reads as plain values: for each statistic
/// the outcomes on its cores.
pub open spec fn outcomes(readings: Seq<Vec<Option<u64>>>) -> Seq<Seq<Option<u64>>> {
    Seq::new(readings.len(), |i: int| readings[i]@)
}

/// Whether `readings` holds one row for each of `rows` statistics, and each
/// row one outcome for each of `cores` cores.
pub open spec fn well_shaped(readings: Seq<Seq<Option<u64>>>, rows: nat, cores: nat) -> bool {
    &&& readings.len() == rows
    &&& forall|i: int| 0 <= i < readings.len() ==> (#[trigger] readings[i]).len() == cores
}

impl<C> CounterPool<C> {
    /// The tracked statistics, in the order in which they were configured.
    pub closed spec fn statistics(&self) -> Seq<PerfStatistic> {
        Seq::new(self.entries@.len(), |i: int| self.entries@[i].statistic)
    }

    /// The number of cores that the pool was built for.
    pub closed spec fn cores(&self) -> nat {
        self.cores as nat
    }

    /// The number of handles held for the tracked statistic at place `i`.
    pub closed spec fn handles(&self, i: int) -> nat {
        self.entries@[i].counters@.len()
    }

    /// Every tracked statistic has a handle for each core, and none is
    /// tracked twice. This holds of every pool.
    pub open spec fn full(&self) -> bool {
        &&& self.statistics().no_duplicates()
        &&& forall|i: int|
            0 <= i < self.statistics().len() ==> #[trigger] self.handles(i) == self.cores()
    }

    #[verifier::type_invariant]
    spec fn inv(&self) -> bool {
        self.full()
    }
}

impl<C: Counter> CounterPool<C> {
    /// Opens handles for `statistic` on the cores from 0 on, and stops at
    /// the first refusal.
    fn open_all(statistic: PerfStatistic, cores: u64) -> (handles: Vec<C>)
        ensures
            handles@.len() <= cores,
    {
        let mut handles: Vec<C> = Vec::new();
        let mut core: u64 = 0;
        while core < cores
            invariant
                core <= cores,
                handles@.len() == core,
            decreases cores - core,
        {
            match C::open(statistic, core) {
                Some(handle) => {
                    handles.push(handle);
                    core += 1;
                },
                None => {
                    return handles;
                },
            }
        }
        handles
    }

    /// Builds the pool for the configured statistics and `cores` cores.
    ///
    /// For each statistic, handles are opened core by core. At the first
    /// refusal the handles already opened for that statistic are dropped
    /// and the statistic is left out. The log says for each configured
    /// statistic how far its creation went. Building never fails: a pool
    /// without statistics is a valid result.
    pub fn build(config: &Config, cores: u64) -> (built: (CounterPool<C>, Vec<Attempt>))
        ensures
            built.0.cores() == cores,
            built.0.full(),
            attempts_cover(built.1@, config@.statistics, cores as nat),
            built.0.statistics() == retained(built.1@, cores as nat),
    {
        let statistics = config.statistics();
        let mut entries: Vec<Entry<C>> = Vec::new();
        let mut log: Vec<Attempt> = Vec::new();
        let mut i: usize = 0;
        while i < statistics.len()
            invariant
                i <= statistics@.len(),
                statistics@.no_duplicates(),
                attempts_cover(log@, statistics@.take(i as int), cores as nat),
                entries@.len() == retained(log@, cores as nat).len(),
                forall|k: int|
                    0 <= k < entries@.len() ==> (#[trigger] entries@[k]).statistic == retained(
                        log@,
                        cores as nat,
                    )[k] && entries@[k].counters@.len() == cores,
            decreases statistics@.len() - i,
        {
            let statistic = statistics[i];
            let handles = Self::open_all(statistic, cores);
            let created = handles.len() as u64;
            let ghost before = log@;
            log.push(Attempt { statistic, created });
            proof {
                assert(log@.drop_last() =~= before);
                assert(statistics@.take(i + 1).drop_last() =~= statistics@.take(i as int));
            }
            if created == cores {
                entries.push(Entry { statistic, counters: handles });
            }
            i += 1;
        }
        proof {
            assert(statistics@.take(i as int) =~= statistics@);
            lemma_retained_distinct(log@, statistics@, cores as nat);
        }
        let pool = CounterPool { entries, cores };
        proof {
            assert(pool.statistics() =~= retained(log@, cores as nat));
        }
        (pool, log)
    }

    /// The number of cores that the pool was built for.
    pub fn core_count(&self) -> (cores: u64)
        ensures
            cores == self.cores(),
            self.full(),
    {
        proof {
            use_type_invariant(self);
        }
        self.cores
    }

    /// The tracked statistics, in the order in which they were configured.
    pub fn to_statistics(&self) -> (list: Vec<PerfStatistic>)
        ensures
            list@ == self.statistics(),
            self.full(),
    {
        proof {
            use_type_invariant(self);
        }
        let mut list: Vec<PerfStatistic> = Vec::new();
        let mut i: usize = 0;
        while i < self.entries.len()
            invariant
                i <= self.entries@.len(),
                list@.len() == i,
                forall|k: int| 0 <= k < i ==> list@[k] == self.entries@[k].statistic,
            decreases self.entries@.len() - i,
        {
            list.push(self.entries[i].statistic);
            i += 1;
        }
        proof {
            assert(list@ =~= self.statistics());
        }
        list
    }

    /// Reads every handle once: for each tracked statistic, in order, the
    /// outcome on each core, in order. A read that fails gives `None` and
    /// the reading goes on.
    pub fn read_all(&mut self) -> (readings: Vec<Vec<Option<u64>>>)
        ensures
            old(self).full(),
            final(self).full(),
            final(self).statistics() == old(self).statistics(),
            final(self).cores() == old(self).cores(),
            well_shaped(outcomes(readings@), old(self).statistics().len(), old(self).cores()),
    {
        proof {
            use_type_invariant(&*self);
        }
        let cores = self.cores;
        let ghost before = self.entries@;
        proof {
            assert forall|k: int| 0 <= k < before.len() implies (#[trigger] before[k]).counters@.len()
                == cores by {
                assert(self.handles(k) == self.cores());
            }
        }
        let mut entries: Vec<Entry<C>> = Vec::new();
        std::mem::swap(&mut self.entries, &mut entries);
        let mut readings: Vec<Vec<Option<u64>>> = Vec::new();
        let mut i: usize = 0;
        while i < entries.len()
            invariant
                i <= entries@.len(),
                entries@.len() == before.len(),
                forall|k: int|
                    0 <= k < entries@.len() ==> (#[trigger] entries@[k]).statistic
                        == before[k].statistic && entries@[k].counters@.len() == cores,
                readings@.len() == i,
                forall|k: int| 0 <= k < readings@.len() ==> (#[trigger] readings@[k])@.len() == cores,
            decreases entries@.len() - i,
        {
            let mut row: Vec<Option<u64>> = Vec::new();
            let mut j: usize = 0;
            while j < entries[i].counters.len()
                invariant
                    i < entries@.len(),
                    entries@.len() == before.len(),
                    forall|k: int|
                        0 <= k < entries@.len() ==> (#[trigger] entries@[k]).statistic
                            == before[k].statistic && entries@[k].counters@.len() == cores,
                    j <= entries@[i as int].counters@.len(),
                    row@.len() == j,
                decreases entries@[i as int].counters@.len() - j,
            {
                let outcome = entries[i].counters[j].read();
                row.push(outcome);
                j += 1;
            }
            readings.push(row);
            i += 1;
        }
        proof {
            let next = CounterPool::<C> { entries: entries, cores: cores };
            assert(next.statistics() =~= old(self).statistics());
            assert forall|k: int| 0 <= k < next.statistics().len() implies #[trigger] next.handles(
                k,
            ) == next.cores() by {
                assert(entries@[k].counters@.len() == cores);
            }
            assert(next.full());
        }
        std::mem::swap(&mut self.entries, &mut entries);
        proof {
            assert(self.statistics() =~= old(self).statistics());
        }
        readings
    }
}

} // verus!
