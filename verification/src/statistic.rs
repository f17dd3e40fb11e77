//! The events that can be counted, and the labels of their channels.

use vstd::prelude::*;

verus! {

/// A countable event of the processor or of the kernel.
#[derive(Clone, Copy, Debug, PartialEq, Eq, Hash, Structural)]
pub enum PerfStatistic {
    Cycles,
    Instructions,
    CacheReferences,
    CacheMisses,
    BranchInstructions,
    BranchMisses,
    BusCycles,
    StalledCyclesFrontend,
    StalledCyclesBackend,
    ReferenceCycles,
    ContextSwitches,
    CpuMigrations,
    PageFaults,
}

impl PerfStatistic {
    /// The name of the recorder channel that holds this statistic.
    pub open spec fn label_spec(self) -> Seq<char> {
        match self {
            PerfStatistic::Cycles => "perf/cycles"@,
            PerfStatistic::Instructions => "perf/instructions"@,
            PerfStatistic::CacheReferences => "perf/cache/references"@,
            PerfStatistic::CacheMisses => "perf/cache/misses"@,
            PerfStatistic::BranchInstructions => "perf/branch/instructions"@,
            PerfStatistic::BranchMisses => "perf/branch/misses"@,
            PerfStatistic::BusCycles => "perf/bus/cycles"@,
            PerfStatistic::StalledCyclesFrontend => "perf/stalled/frontend"@,
            PerfStatistic::StalledCyclesBackend => "perf/stalled/backend"@,
            PerfStatistic::ReferenceCycles => "perf/reference/cycles"@,
            PerfStatistic::ContextSwitches => "perf/system/context_switches"@,
            PerfStatistic::CpuMigrations => "perf/system/cpu_migrations"@,
            PerfStatistic::PageFaults => "perf/system/page_faults"@,
        }
    }

    /// Statistics that differ have labels that differ: no two statistics
    /// share a channel.
    pub proof fn lemma_labels_differ(self, other: PerfStatistic)
        requires
            self != other,
        ensures
            self.label_spec() != other.label_spec(),
    {
        reveal_strlit("perf/cycles");
        reveal_strlit("perf/instructions");
        reveal_strlit("perf/cache/references");
        reveal_strlit("perf/cache/misses");
        reveal_strlit("perf/branch/instructions");
        reveal_strlit("perf/branch/misses");
        reveal_strlit("perf/bus/cycles");
        reveal_strlit("perf/stalled/frontend");
        reveal_strlit("perf/stalled/backend");
        reveal_strlit("perf/reference/cycles");
        reveal_strlit("perf/system/context_switches");
        reveal_strlit("perf/system/cpu_migrations");
        reveal_strlit("perf/system/page_faults");
        assert(self.label_spec().len() != other.label_spec().len() || self.label_spec()[5]
            != other.label_spec()[5]);
    }

    /// The name of the recorder channel that holds this statistic.
    pub fn label(&self) -> (label: String)
        ensures
            label@ == self.label_spec(),
    {
        match self {
            PerfStatistic::Cycles => "perf/cycles".to_owned(),
            PerfStatistic::Instructions => "perf/instructions".to_owned(),
            PerfStatistic::CacheReferences => "perf/cache/references".to_owned(),
            PerfStatistic::CacheMisses => "perf/cache/misses".to_owned(),
            PerfStatistic::BranchInstructions => "perf/branch/instructions".to_owned(),
            PerfStatistic::BranchMisses => "perf/branch/misses".to_owned(),
            PerfStatistic::BusCycles => "perf/bus/cycles".to_owned(),
            PerfStatistic::StalledCyclesFrontend => "perf/stalled/frontend".to_owned(),
            PerfStatistic::StalledCyclesBackend => "perf/stalled/backend".to_owned(),
            PerfStatistic::ReferenceCycles => "perf/reference/cycles".to_owned(),
            PerfStatistic::ContextSwitches => "perf/system/context_switches".to_owned(),
            PerfStatistic::CpuMigrations => "perf/system/cpu_migrations".to_owned(),
            PerfStatistic::PageFaults => "perf/system/page_faults".to_owned(),
        }
    }
}

} // verus!
