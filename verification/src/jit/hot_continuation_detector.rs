//! Hot continuation detection: the bounded execution history, the
//! detector's own profiling statistics, recommendations and statistics.
use vstd::prelude::*;
use crate::continuations::ContinuationId;
use crate::time::{div_spec, Duration, Instant, MAX_NANOS};

verus! {

/// Optimization recommendation level.
#[derive(Debug, Clone, Copy, PartialEq, Eq, Structural)]
pub enum OptimizationRecommendation {
    HighPriority,
    MediumPriority,
    LowPriority,
}

/// Detection statistics.
#[derive(Debug, Clone, Copy, PartialEq, Eq, Structural)]
pub struct DetectionStatistics {
    pub total_continuations_tracked: usize,
    pub hot_continuations_detected: usize,
    pub warm_continuations_detected: usize,
    pub average_profiling_overhead: Duration,
    pub total_profiling_calls: u32,
}

/// Statistics of the detector itself.
#[derive(Debug, Clone, Copy, PartialEq, Eq)]
pub struct DetectorSystemStats {
    pub total_profiling_calls: u32,
    pub total_profiling_time: Duration,
    pub average_profiling_time: Duration,
    pub last_threshold_adjustment: Instant,
}

impl DetectorSystemStats {
    /// Statistics with nothing profiled and the thresholds last adjusted at `now`.
    pub fn new_at(now: Instant) -> (s: Self)
        ensures
            s.total_profiling_calls == 0,
            s.total_profiling_time@ == 0,
            s.average_profiling_time@ == 0,
            s.last_threshold_adjustment == now,
    {
        DetectorSystemStats {
            total_profiling_calls: 0,
            total_profiling_time: Duration::zero(),
            average_profiling_time: Duration::zero(),
            last_threshold_adjustment: now,
        }
    }

    /// Records one profiling call that took `processing_time`: the call count
    /// and total time grow, and the average is the total over the count.
    pub fn record_profiling(&mut self, processing_time: Duration)
        requires
            old(self).total_profiling_calls < u32::MAX,
            old(self).total_profiling_time@ + processing_time@ <= MAX_NANOS,
        ensures
            final(self).total_profiling_calls == old(self).total_profiling_calls + 1,
            final(self).total_profiling_time@ == old(self).total_profiling_time@ + processing_time@,
            final(self).average_profiling_time@ == div_spec(
                final(self).total_profiling_time@,
                final(self).total_profiling_calls as nat,
            ),
            final(self).last_threshold_adjustment == old(self).last_threshold_adjustment,
    {
        self.total_profiling_calls = self.total_profiling_calls + 1;
        self.total_profiling_time = self.total_profiling_time.add(processing_time);
        self.average_profiling_time = self.total_profiling_time.div_u32(self.total_profiling_calls);
    }

    /// Statistics with nothing profiled and the thresholds last adjusted now.
    pub fn new() -> (s: Self)
        ensures
            s.total_profiling_calls == 0,
            s.total_profiling_time@ == 0,
            s.average_profiling_time@ == 0,
    {
        DetectorSystemStats::new_at(Instant::now())
    }
}

/// One recorded execution of a continuation.
#[derive(Debug, Clone, Copy, PartialEq, Eq)]
pub struct ExecutionEvent {
    pub continuation_id: ContinuationId,
    pub execution_time: Duration,
    pub timestamp: Instant,
}

/// The history after recording `event` with room for `capacity` events:
/// when full, the oldest event leaves before the new one is appended.
pub open spec fn history_after(history: Seq<ExecutionEvent>, capacity: nat, event: ExecutionEvent) -> Seq<ExecutionEvent> {
    if history.len() >= capacity && history.len() > 0 {
        history.drop_first().push(event)
    } else {
        history.push(event)
    }
}

/// Appends `event` to the execution history kept for statistics, dropping
/// the oldest event first when the history holds `capacity` events or more.
pub fn add_execution_to_history(history: &mut Vec<ExecutionEvent>, capacity: usize, event: ExecutionEvent)
    ensures
        final(history)@ == history_after(old(history)@, capacity as nat, event),
{
    if history.len() >= capacity && history.len() > 0 {
        history.remove(0);
    }
    history.push(event);
}

/// The history stays within its capacity: a history of at most `capacity`
/// events (with room for at least one) still holds at most `capacity` after
/// an event is recorded, and the new event is the latest.
pub proof fn lemma_history_bounded(history: Seq<ExecutionEvent>, capacity: nat, event: ExecutionEvent)
    requires
        capacity >= 1,
        history.len() <= capacity,
    ensures
        history_after(history, capacity, event).len() <= capacity,
        history_after(history, capacity, event).last() == event,
{
}

/// The time between the first and the last recorded event, or zero with
/// fewer than two events or when the last reading is the earlier one.
pub fn calculate_observation_period(history: &Vec<ExecutionEvent>) -> (d: Duration)
    ensures
        d@ == if history@.len() < 2 {
            0nat
        } else if history@.last().timestamp@ >= history@[0].timestamp@ {
            (history@.last().timestamp@ - history@[0].timestamp@) as nat
        } else {
            0nat
        },
{
    if history.len() < 2 {
        return Duration::zero();
    }
    let earliest = history[0].timestamp;
    let latest = history[history.len() - 1].timestamp;
    latest.duration_since(earliest)
}

} // verus!
