//! A sampler of hardware performance counters.
//!
//! For each configured statistic the sampler holds one counter per core. On
//! every tick it reads them, adds the readings of all cores and says what a
//! time-series recorder is to be told: which channels to register, which
//! values to record and which channels to delete. The commands are returned
//! as values, so that the caller's recorder can carry them out.

pub mod action;
pub mod aggregate;
pub mod config;
pub mod counter;
pub mod pool;
pub mod sampler;
pub mod statistic;

pub use crate::sampler::Perf;
pub use crate::statistic::PerfStatistic;
