//! What the sampler tells the recorder.

use crate::aggregate::recorded;
use crate::statistic::PerfStatistic;
use vstd::prelude::*;

verus! {

/// The largest value that a channel is registered for.
pub const MAX_VALUE: u64 = 1_000_000_000_000;

/// The number of significant digits that a channel is registered with.
pub const PRECISION: u32 = 3;

/// One command for the recorder. The channel of a statistic is named by the
/// statistic's label.
#[derive(Clone, Copy, Debug, PartialEq, Eq, Structural)]
pub enum Action {
    /// Create the channel of `statistic`.
    Register { statistic: PerfStatistic, max_value: u64, precision: u32, window: usize },
    /// Append `value`, taken at `time`, to the channel of `statistic`.
    Record { statistic: PerfStatistic, time: u64, value: u64 },
    /// Remove the channel of `statistic`.
    DeleteChannel { statistic: PerfStatistic },
}

impl Action {
    /// The statistic whose channel the command is for.
    pub open spec fn statistic_spec(self) -> PerfStatistic {
        match self {
            Action::Register { statistic, .. } => statistic,
            Action::Record { statistic, .. } => statistic,
            Action::DeleteChannel { statistic } => statistic,
        }
    }

    /// The statistic whose channel the command is for.
    pub fn statistic(&self) -> (statistic: PerfStatistic)
        ensures
            statistic == self.statistic_spec(),
    {
        match self {
            Action::Register { statistic, .. } => *statistic,
            Action::Record { statistic, .. } => *statistic,
            Action::DeleteChannel { statistic } => *statistic,
        }
    }

    /// The name of the channel that the command is for: the label of its
    /// statistic.
    pub fn channel(&self) -> (label: String)
        ensures
            label@ == self.statistic_spec().label_spec(),
    {
        self.statistic().label()
    }
}

/// The registration of the channel of `statistic` with the fixed scale and
/// precision and the given window.
pub open spec fn registration(statistic: PerfStatistic, window: usize) -> Action {
    Action::Register { statistic, max_value: MAX_VALUE, precision: PRECISION, window }
}

/// One registration for each of `statistics`, in their order.
pub open spec fn registrations(statistics: Seq<PerfStatistic>, window: usize) -> Seq<Action> {
    Seq::new(statistics.len(), |i: int| registration(statistics[i], window))
}

/// One recorded value for each of `statistics`, in their order: the total of
/// the statistic's row of `readings`, all at the one time `time`.
pub open spec fn recordings(
    statistics: Seq<PerfStatistic>,
    time: u64,
    readings: Seq<Seq<Option<u64>>>,
) -> Seq<Action> {
    Seq::new(
        statistics.len(),
        |i: int| Action::Record { statistic: statistics[i], time, value: recorded(readings[i]) },
    )
}

/// One deletion for each of `statistics`, in their order.
pub open spec fn deletions(statistics: Seq<PerfStatistic>) -> Seq<Action> {
    Seq::new(statistics.len(), |i: int| Action::DeleteChannel { statistic: statistics[i] })
}

} // verus!
