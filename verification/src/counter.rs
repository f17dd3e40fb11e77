//! Counter handles: what the sampler asks of the counter subsystem, and the
//! handles of the operating system that answer it.

use crate::statistic::PerfStatistic;
use perfcnt::linux::HardwareEventType;
use perfcnt::linux::PerfCounterBuilderLinux;
use perfcnt::linux::SoftwareEventType;
use perfcnt::AbstractPerfCounter;
use perfcnt::PerfCounter;
use vstd::prelude::*;

verus! {

/// A live counter of the operating system, bound to one event and one core.
#[verifier::external_type_specification]
#[verifier::external_body]
pub struct ExPerfCounter(perfcnt::PerfCounter);

/// The description of a counter that has not been opened yet.
#[verifier::external_type_specification]
#[verifier::external_body]
pub struct ExPerfCounterBuilderLinux(perfcnt::linux::PerfCounterBuilderLinux);

/// A counter handle: one counter of one event, bound to one core and counting
/// all processes that run there.
///
/// Neither operation promises success. The sampler is proved for every
/// outcome of both.
pub trait Counter: Sized {
    /// Opens the counter of `statistic` on the core with index `core`, or
    /// gives `None` where the subsystem refuses.
    fn open(statistic: PerfStatistic, core: u64) -> Option<Self>;

    /// Reads the count accumulated so far, or gives `None` where the read
    /// fails.
    fn read(&mut self) -> Option<u64>;
}

/// `PerfCounterBuilderLinux::from_hardware_event` and `from_software_event`:
/// the description of the counter that counts `statistic`, with the
/// defaults of perfcnt for everything else. Nothing is claimed of it.
#[verifier::external_body]
fn describe(statistic: PerfStatistic) -> PerfCounterBuilderLinux {
    match statistic {
        PerfStatistic::Cycles => PerfCounterBuilderLinux::from_hardware_event(HardwareEventType::CPUCycles),
        PerfStatistic::Instructions => PerfCounterBuilderLinux::from_hardware_event(HardwareEventType::Instructions),
        PerfStatistic::CacheReferences => PerfCounterBuilderLinux::from_hardware_event(HardwareEventType::CacheReferences),
        PerfStatistic::CacheMisses => PerfCounterBuilderLinux::from_hardware_event(HardwareEventType::CacheMisses),
        PerfStatistic::BranchInstructions => PerfCounterBuilderLinux::from_hardware_event(HardwareEventType::BranchInstructions),
        PerfStatistic::BranchMisses => PerfCounterBuilderLinux::from_hardware_event(HardwareEventType::BranchMisses),
        PerfStatistic::BusCycles => PerfCounterBuilderLinux::from_hardware_event(HardwareEventType::BusCycles),
        PerfStatistic::StalledCyclesFrontend => PerfCounterBuilderLinux::from_hardware_event(HardwareEventType::StalledCyclesFrontend),
        PerfStatistic::StalledCyclesBackend => PerfCounterBuilderLinux::from_hardware_event(HardwareEventType::StalledCyclesBackend),
        PerfStatistic::ReferenceCycles => PerfCounterBuilderLinux::from_hardware_event(HardwareEventType::RefCPUCycles),
        PerfStatistic::ContextSwitches => PerfCounterBuilderLinux::from_software_event(SoftwareEventType::ContextSwitches),
        PerfStatistic::CpuMigrations => PerfCounterBuilderLinux::from_software_event(SoftwareEventType::CpuMigrations),
        PerfStatistic::PageFaults => PerfCounterBuilderLinux::from_software_event(SoftwareEventType::PageFaults),
    }
}

/// `PerfCounterBuilderLinux::on_cpu`, `for_all_pids` and `finish`: asks the
/// kernel for the described counter on one core, for all processes. The
/// kernel decides whether it is granted, so nothing is claimed of the result.
#[verifier::external_body]
fn finish_on_core(builder: PerfCounterBuilderLinux, core: u64) -> Option<PerfCounter> {
    let mut builder = builder;
    builder.on_cpu(core as isize).for_all_pids().finish().ok()
}

/// `AbstractPerfCounter::read` of a `PerfCounter`: the count that the kernel
/// reports, or `None` where the read fails. Nothing is claimed of it.
#[verifier::external_body]
fn read_counter(counter: &mut PerfCounter) -> Option<u64> {
    AbstractPerfCounter::read(counter).ok()
}

impl Counter for PerfCounter {
    fn open(statistic: PerfStatistic, core: u64) -> Option<Self> {
        finish_on_core(describe(statistic), core)
    }

    fn read(&mut self) -> Option<u64> {
        read_counter(self)
    }
}

} // verus!
