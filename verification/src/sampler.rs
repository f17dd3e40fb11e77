//! The sampler: the counter pool, the registration state and the tick.

use crate::action::deletions;
use crate::action::recordings;
use crate::action::registration;
use crate::action::registrations;
use crate::action::Action;
use crate::action::MAX_VALUE;
use crate::action::PRECISION;
use crate::aggregate::recorded;
use crate::aggregate::total;
use crate::config::Config;
use crate::config::ConfigView;
use crate::counter::Counter;
use crate::pool::attempts_cover;
use crate::pool::lemma_tracked_iff_complete;
use crate::pool::outcomes;
use crate::pool::retained;
use crate::pool::well_shaped;
use crate::pool::Attempt;
use crate::pool::CounterPool;
use crate::statistic::PerfStatistic;
use perfcnt::PerfCounter;
use vstd::prelude::*;

verus! {

/// The number of cores that the pool is built for: the number of hardware
/// threads, or 1 where that number could not be determined.
pub open spec fn core_count(hardware_threads: Option<u64>) -> u64 {
    match hardware_threads {
        Some(threads) => threads,
        None => 1,
    }
}

/// The sampler as plain values.
pub struct PerfView {
    /// Whether the channels are registered with the recorder.
    pub registered: bool,
    /// The statistics in the pool, in the order in which they were
    /// configured.
    pub statistics: Seq<PerfStatistic>,
    /// For each statistic in the pool, the number of handles held for it.
    pub handles: Seq<nat>,
    /// The number of cores that the pool was built for.
    pub cores: nat,
    /// The window that each channel is registered with.
    pub window: usize,
    /// For each configured statistic, how far the creation of its handles
    /// went when the pool was built.
    pub attempts: Seq<Attempt>,
}

impl PerfView {
    /// The pool holds no statistic twice, and for each statistic exactly one
    /// handle per core.
    pub open spec fn wf(self) -> bool {
        &&& self.statistics.no_duplicates()
        &&& self.handles.len() == self.statistics.len()
        &&& forall|i: int| 0 <= i < self.handles.len() ==> self.handles[i] == self.cores
    }

    /// Whether this is a sampler as it is built from `config` on a host with
    /// `hardware_threads` hardware threads: unregistered, with a pool for as
    /// many cores, and in the pool the statistics of the attempts that gave
    /// a handle on every core.
    pub open spec fn built_from(self, config: ConfigView, hardware_threads: Option<u64>) -> bool {
        &&& self.wf()
        &&& !self.registered
        &&& self.window == config.window
        &&& self.cores == core_count(hardware_threads)
        &&& attempts_cover(self.attempts, config.statistics, self.cores)
        &&& self.statistics == retained(self.attempts, self.cores)
    }

    /// What registering tells the recorder: one registration for each
    /// statistic in the pool, or nothing where they are registered already.
    pub open spec fn register_actions(self) -> Seq<Action> {
        if self.registered {
            Seq::empty()
        } else {
            registrations(self.statistics, self.window)
        }
    }

    /// The state after registering.
    pub open spec fn after_register(self) -> PerfView {
        PerfView { registered: true, ..self }
    }

    /// What deregistering tells the recorder: one deletion for each
    /// statistic in the pool, or nothing where none is registered.
    pub open spec fn deregister_actions(self) -> Seq<Action> {
        if self.registered {
            deletions(self.statistics)
        } else {
            Seq::empty()
        }
    }

    /// The state after deregistering.
    pub open spec fn after_deregister(self) -> PerfView {
        PerfView { registered: false, ..self }
    }

    /// What a tick tells the recorder: the registrations, where they are
    /// still owed, and then one value for each statistic in the pool.
    pub open spec fn sample_actions(self, time: u64, readings: Seq<Seq<Option<u64>>>) -> Seq<
        Action,
    > {
        self.register_actions() + recordings(self.statistics, time, readings)
    }

    /// The state after a tick.
    pub open spec fn after_sample(self) -> PerfView {
        self.after_register()
    }
}

/// For every configured statistic: where a handle was created on every
/// core, the statistic is in the pool with exactly one handle for each core;
/// where the creation failed on a core, the statistic is not in the pool.
pub proof fn lemma_pool_holds_the_complete_statistics(
    perf: PerfView,
    config: ConfigView,
    hardware_threads: Option<u64>,
    i: int,
)
    requires
        perf.built_from(config, hardware_threads),
        config.statistics.no_duplicates(),
        0 <= i < config.statistics.len(),
    ensures
        perf.attempts[i].statistic == config.statistics[i],
        perf.attempts[i].created == perf.cores ==> exists|k: int|
            0 <= k < perf.statistics.len() && #[trigger] perf.statistics[k] == config.statistics[i]
                && perf.handles[k] == perf.cores,
        perf.attempts[i].created != perf.cores ==> !perf.statistics.contains(config.statistics[i]),
{
    lemma_tracked_iff_complete(perf.attempts, config.statistics, perf.cores, i);
    if perf.attempts[i].created == perf.cores {
        let k = choose|k: int|
            0 <= k < perf.statistics.len() && perf.statistics[k] == config.statistics[i];
        assert(perf.handles[k] == perf.cores);
    }
}

/// Where the number of hardware threads is not known, the sampler is built
/// all the same, with a pool for exactly one core.
pub proof fn lemma_unknown_core_count_is_one(perf: PerfView, config: ConfigView)
    requires
        perf.built_from(config, None),
    ensures
        perf.cores == 1,
        forall|i: int| 0 <= i < perf.handles.len() ==> perf.handles[i] == 1,
{
}

/// A tick registers once: from the unregistered state it gives exactly one
/// registration for each statistic, before any value, and leaves the state
/// registered; from the registered state it gives values only.
pub proof fn lemma_sample_registers_once(
    state: PerfView,
    time: u64,
    readings: Seq<Seq<Option<u64>>>,
)
    ensures
        state.after_sample().registered,
        state.registered ==> {
            &&& state.sample_actions(time, readings).len() == state.statistics.len()
            &&& forall|i: int|
                0 <= i < state.statistics.len() ==> state.sample_actions(time, readings)[i]
                    is Record
        },
        !state.registered ==> {
            &&& state.sample_actions(time, readings).len() == 2 * state.statistics.len()
            &&& forall|i: int|
                0 <= i < state.statistics.len() ==> state.sample_actions(time, readings)[i]
                    == registration(state.statistics[i], state.window)
            &&& forall|i: int|
                state.statistics.len() <= i < 2 * state.statistics.len() ==> state.sample_actions(
                    time,
                    readings,
                )[i] is Record
        },
{
}

/// A tick is one snapshot: it gives exactly one value for each statistic in
/// the pool, in the pool's order and after every registration, each the
/// total of the statistic's readings and all with the tick's one timestamp.
pub proof fn lemma_tick_is_one_snapshot(
    state: PerfView,
    time: u64,
    readings: Seq<Seq<Option<u64>>>,
    i: int,
)
    requires
        0 <= i < state.statistics.len(),
    ensures
        state.sample_actions(time, readings).len() == state.register_actions().len()
            + state.statistics.len(),
        state.sample_actions(time, readings)[state.register_actions().len() + i] == (
        Action::Record {
            statistic: state.statistics[i],
            time,
            value: recorded(readings[i]),
        }),
        forall|k: int|
            0 <= k < state.register_actions().len() ==> !(state.sample_actions(time, readings)[k]
                is Record),
{
}

/// A tick that follows another tick never registers again, in whatever
/// state the first one began.
pub proof fn lemma_repeated_sample_never_registers(
    state: PerfView,
    time: u64,
    readings: Seq<Seq<Option<u64>>>,
)
    ensures
        state.after_sample().sample_actions(time, readings) == recordings(
            state.statistics,
            time,
            readings,
        ),
        state.after_sample().after_sample() == state.after_sample(),
{
    assert(state.after_sample().sample_actions(time, readings) =~= recordings(
        state.statistics,
        time,
        readings,
    ));
}

/// Deregistering and then sampling registers again: the state is registered
/// once more and the tick begins with the registration of every channel.
pub proof fn lemma_sample_after_deregister_registers(
    state: PerfView,
    time: u64,
    readings: Seq<Seq<Option<u64>>>,
)
    ensures
        !state.after_deregister().registered,
        state.after_deregister().after_sample().registered,
        state.after_deregister().sample_actions(time, readings) == registrations(
            state.statistics,
            state.window,
        ) + recordings(state.statistics, time, readings),
{
}

/// Deregistering what is not registered deletes no channel and changes
/// nothing.
pub proof fn lemma_deregister_unregistered_is_noop(state: PerfView)
    requires
        !state.registered,
    ensures
        state.deregister_actions() == Seq::<Action>::empty(),
        state.after_deregister() == state,
{
}

/// Registering what is registered already registers no channel and changes
/// nothing.
pub proof fn lemma_register_registered_is_noop(state: PerfView)
    requires
        state.registered,
    ensures
        state.register_actions() == Seq::<Action>::empty(),
        state.after_register() == state,
{
}

/// One sampling operation: what was read and what the recorder is to be
/// told, all under one timestamp.
#[derive(Clone, Debug, PartialEq, Eq)]
pub struct Tick {
    /// The timestamp that every value of this tick is recorded with, in
    /// nanoseconds.
    pub time: u64,
    /// For each statistic in the pool, in order, the outcome of reading
    /// each core's handle, in order. `None` stands for a failed read.
    pub readings: Vec<Vec<Option<u64>>>,
    /// The commands for the recorder, in the order in which they are to be
    /// carried out.
    pub actions: Vec<Action>,
}

/// A tick as plain values.
pub struct TickView {
    pub time: u64,
    pub readings: Seq<Seq<Option<u64>>>,
    pub actions: Seq<Action>,
}

impl View for Tick {
    type V = TickView;

    open spec fn view(&self) -> TickView {
        TickView { time: self.time, readings: outcomes(self.readings@), actions: self.actions@ }
    }
}

/// The sampler of hardware performance counters. Its handles are counters
/// of the operating system unless another kind of handle is named.
pub struct Perf<C = PerfCounter> {
    window: usize,
    pool: CounterPool<C>,
    attempts: Vec<Attempt>,
    initialized: bool,
}

impl<C> View for Perf<C> {
    type V = PerfView;

    closed spec fn view(&self) -> PerfView {
        PerfView {
            registered: self.initialized,
            statistics: self.pool.statistics(),
            handles: Seq::new(self.pool.statistics().len(), |i: int| self.pool.handles(i)),
            cores: self.pool.cores(),
            window: self.window,
            attempts: self.attempts@,
        }
    }
}

/// `time::precise_time_ns`: the reading of a high-resolution clock, in
/// nanoseconds. Nothing is claimed of the value.
#[verifier::external_body]
fn precise_time_ns() -> u64 {
    time::precise_time_ns()
}

impl<C: Counter> Perf<C> {
    /// Builds the sampler, or gives `None` where the configuration has it
    /// disabled.
    ///
    /// The pool is built for `hardware_threads` cores, or for one core where
    /// that number is not known. A statistic is in the pool exactly if a
    /// handle could be created for it on every core; the attempts say for
    /// each configured statistic how many were created. The sampler starts
    /// unregistered.
    pub fn new(config: &Config, hardware_threads: Option<u64>) -> (sampler: Option<Perf<C>>)
        ensures
            sampler is Some <==> config@.enabled,
            sampler matches Some(perf) ==> perf@.built_from(config@, hardware_threads),
    {
        if !config.enabled() {
            return None;
        }
        let cores: u64 = match hardware_threads {
            Some(threads) => threads,
            None => 1,
        };
        let built = CounterPool::build(config, cores);
        let perf = Perf { window: config.window(), pool: built.0, attempts: built.1, initialized: false };
        Some(perf)
    }

    /// The name under which the sampler is known.
    pub fn name(&self) -> (name: String)
        ensures
            name@ == "perf"@,
    {
        "perf".to_owned()
    }

    /// Whether the channels are registered with the recorder.
    pub fn registered(&self) -> (registered: bool)
        ensures
            registered == self@.registered,
    {
        self.initialized
    }

    /// The number of cores that the pool was built for.
    pub fn cores(&self) -> (cores: u64)
        ensures
            cores == self@.cores,
            self@.wf(),
    {
        self.pool.core_count()
    }

    /// The statistics in the pool, in the order in which they were
    /// configured.
    pub fn statistics(&self) -> (statistics: Vec<PerfStatistic>)
        ensures
            statistics@ == self@.statistics,
            self@.wf(),
    {
        self.pool.to_statistics()
    }

    /// For each configured statistic, how far the creation of its handles
    /// went when the pool was built.
    pub fn attempts(&self) -> (attempts: &Vec<Attempt>)
        ensures
            attempts@ == self@.attempts,
    {
        &self.attempts
    }

    /// Takes one sample at the present time of the clock.
    ///
    /// Every handle is read once. A read that fails counts as 0 and the
    /// tick goes on. The tick holds the registration of every channel, where
    /// the sampler was not registered, and then one value for each statistic
    /// in the pool, all with the tick's one timestamp. Sampling always
    /// succeeds.
    pub fn sample(&mut self) -> (tick: Tick)
        ensures
            old(self)@.wf(),
            final(self)@ == old(self)@.after_sample(),
            well_shaped(tick@.readings, old(self)@.statistics.len(), old(self)@.cores),
            tick@.actions == old(self)@.sample_actions(tick@.time, tick@.readings),
    {
        let time = precise_time_ns();
        self.sample_at(time)
    }

    /// Takes one sample with the timestamp `time`.
    pub fn sample_at(&mut self, time: u64) -> (tick: Tick)
        ensures
            old(self)@.wf(),
            final(self)@ == old(self)@.after_sample(),
            tick@.time == time,
            well_shaped(tick@.readings, old(self)@.statistics.len(), old(self)@.cores),
            tick@.actions == old(self)@.sample_actions(time, tick@.readings),
    {
        let readings = self.pool.read_all();
        proof {
            assert(self@.handles =~= old(self)@.handles);
        }
        let mut actions = self.register();
        let statistics = self.pool.to_statistics();
        let ghost owed = actions@;
        let mut i: usize = 0;
        while i < statistics.len()
            invariant
                i <= statistics@.len(),
                statistics@.len() == readings@.len(),
                actions@.len() == owed.len() + i,
                forall|k: int| 0 <= k < owed.len() ==> actions@[k] == owed[k],
                forall|k: int|
                    0 <= k < i ==> actions@[owed.len() + k] == recordings(
                        statistics@,
                        time,
                        outcomes(readings@),
                    )[k],
            decreases statistics@.len() - i,
        {
            let value = total(&readings[i]);
            actions.push(Action::Record { statistic: statistics[i], time, value });
            i += 1;
        }
        proof {
            assert(actions@ =~= owed + recordings(statistics@, time, outcomes(readings@)));
        }
        Tick { time, readings, actions }
    }

    /// Registers one channel for each statistic in the pool, with the fixed
    /// scale and precision and the configured window. Where the sampler is
    /// registered already, nothing is done.
    pub fn register(&mut self) -> (actions: Vec<Action>)
        ensures
            old(self)@.wf(),
            final(self)@ == old(self)@.after_register(),
            actions@ == old(self)@.register_actions(),
    {
        let mut actions: Vec<Action> = Vec::new();
        let statistics = self.pool.to_statistics();
        if !self.initialized {
            let mut i: usize = 0;
            while i < statistics.len()
                invariant
                    i <= statistics@.len(),
                    actions@.len() == i,
                    forall|k: int|
                        0 <= k < i ==> actions@[k] == registration(statistics@[k], self.window),
                decreases statistics@.len() - i,
            {
                actions.push(
                    Action::Register {
                        statistic: statistics[i],
                        max_value: MAX_VALUE,
                        precision: PRECISION,
                        window: self.window,
                    },
                );
                i += 1;
            }
            self.initialized = true;
            proof {
                assert(actions@ =~= registrations(statistics@, self.window));
            }
        }
        actions
    }

    /// Deletes the channel of each statistic in the pool. Where the sampler
    /// is not registered, nothing is done.
    pub fn deregister(&mut self) -> (actions: Vec<Action>)
        ensures
            old(self)@.wf(),
            final(self)@ == old(self)@.after_deregister(),
            actions@ == old(self)@.deregister_actions(),
    {
        let mut actions: Vec<Action> = Vec::new();
        let statistics = self.pool.to_statistics();
        if self.initialized {
            let mut i: usize = 0;
            while i < statistics.len()
                invariant
                    i <= statistics@.len(),
                    actions@.len() == i,
                    forall|k: int|
                        0 <= k < i ==> actions@[k] == (Action::DeleteChannel {
                            statistic: statistics@[k],
                        }),
                decreases statistics@.len() - i,
            {
                actions.push(Action::DeleteChannel { statistic: statistics[i] });
                i += 1;
            }
            self.initialized = false;
            proof {
                assert(actions@ =~= deletions(statistics@));
            }
        }
        actions
    }
}

} // verus!
