//! Counting of allocations that bypass the frame pools.
//!
//! The tracker is purely observational: instrumented call sites report every
//! hot-path allocation to it, and a reporting cycle reads and clears the
//! violation count to produce a violations-per-interval signal. By definition
//! every tracked hot-path allocation is a violation, so the two lifetime
//! counters move together.

use vstd::prelude::*;

verus! {

/// Mathematical state of the tracker's four counters.
pub struct TrackerModel {
    pub hot_path_allocations: nat,
    pub frame_allocations: nat,
    pub peak_allocations_per_frame: nat,
    pub zero_allocation_violations: nat,
}

/// One operation applied to the tracker.
pub enum TrackerOp {
    /// An instrumented call site reports one hot-path allocation.
    Track,
    /// A frame boundary resets the per-frame counter.
    NewFrame,
    /// A reporting cycle reads and clears the violation counters.
    Clear,
}

/// The tracker is well formed when the violation counter agrees with the
/// lifetime hot-path counter.
pub open spec fn tracker_wf(m: TrackerModel) -> bool {
    m.zero_allocation_violations == m.hot_path_allocations
}

/// The tracker state after one operation.
pub open spec fn tracker_step(m: TrackerModel, op: TrackerOp) -> TrackerModel {
    match op {
        TrackerOp::Track => TrackerModel {
            hot_path_allocations: m.hot_path_allocations + 1,
            frame_allocations: m.frame_allocations + 1,
            peak_allocations_per_frame: if m.frame_allocations + 1
                > m.peak_allocations_per_frame {
                m.frame_allocations + 1
            } else {
                m.peak_allocations_per_frame
            },
            zero_allocation_violations: m.zero_allocation_violations + 1,
        },
        TrackerOp::NewFrame => TrackerModel { frame_allocations: 0, ..m },
        TrackerOp::Clear => TrackerModel {
            hot_path_allocations: 0,
            zero_allocation_violations: 0,
            ..m
        },
    }
}

/// The tracker state after a whole sequence of operations.
pub open spec fn tracker_run(m: TrackerModel, ops: Seq<TrackerOp>) -> TrackerModel
    decreases ops.len(),
{
    if ops.len() == 0 {
        m
    } else {
        tracker_step(tracker_run(m, ops.drop_last()), ops.last())
    }
}

/// Whether a sequence of operations holds a clear.
pub open spec fn has_clear(ops: Seq<TrackerOp>) -> bool {
    exists|i: int| 0 <= i < ops.len() && ops[i] is Clear
}

/// Violation counter monotonicity: across any sequence of operations the
/// violation counter never decreases unless the sequence holds an explicit
/// clear, and it always equals the lifetime hot-path counter.
pub proof fn lemma_violations_monotonic(m: TrackerModel, ops: Seq<TrackerOp>)
    requires
        tracker_wf(m),
    ensures
        tracker_wf(tracker_run(m, ops)),
        !has_clear(ops) ==> tracker_run(m, ops).zero_allocation_violations
            >= m.zero_allocation_violations,
    decreases ops.len(),
{
    if ops.len() > 0 {
        lemma_violations_monotonic(m, ops.drop_last());
        if !has_clear(ops) {
            assert(forall|i: int|
                0 <= i < ops.len() - 1 ==> ops.drop_last()[i] == ops[i]);
            assert(!has_clear(ops.drop_last()));
            assert(!(ops.last() is Clear)) by {
                assert(ops[ops.len() - 1] == ops.last());
            }
        }
    }
}

/// Tracker for allocations that occur where only pool allocation was
/// expected.
pub struct AllocationTracker {
    pub hot_path_allocations: u64,
    pub frame_allocations: u64,
    pub peak_allocations_per_frame: u64,
    pub zero_allocation_violations: u64,
}

impl View for AllocationTracker {
    type V = TrackerModel;

    open spec fn view(&self) -> TrackerModel {
        TrackerModel {
            hot_path_allocations: self.hot_path_allocations as nat,
            frame_allocations: self.frame_allocations as nat,
            peak_allocations_per_frame: self.peak_allocations_per_frame as nat,
            zero_allocation_violations: self.zero_allocation_violations as nat,
        }
    }
}

impl AllocationTracker {
    /// A fresh tracker with all counters at zero.
    pub fn new() -> (r: AllocationTracker)
        ensures
            r.hot_path_allocations == 0,
            r.frame_allocations == 0,
            r.peak_allocations_per_frame == 0,
            r.zero_allocation_violations == 0,
            tracker_wf(r@),
    {
        AllocationTracker {
            hot_path_allocations: 0,
            frame_allocations: 0,
            peak_allocations_per_frame: 0,
            zero_allocation_violations: 0,
        }
    }

    /// Records one hot-path allocation: bumps the lifetime, per-frame and
    /// violation counters and keeps the per-frame peak.
    pub fn track_hot_path_allocation(&mut self)
        requires
            old(self).hot_path_allocations < u64::MAX,
            old(self).frame_allocations < u64::MAX,
            old(self).zero_allocation_violations < u64::MAX,
        ensures
            final(self)@ == tracker_step(old(self)@, TrackerOp::Track),
            final(self).hot_path_allocations == old(self).hot_path_allocations + 1,
            final(self).frame_allocations == old(self).frame_allocations + 1,
            final(self).zero_allocation_violations == old(self).zero_allocation_violations + 1,
            final(self).peak_allocations_per_frame >= old(self).peak_allocations_per_frame,
            tracker_wf(old(self)@) ==> tracker_wf(final(self)@),
    {
        self.hot_path_allocations += 1;
        self.frame_allocations += 1;
        self.zero_allocation_violations += 1;

        if self.frame_allocations > self.peak_allocations_per_frame {
            self.peak_allocations_per_frame = self.frame_allocations;
        }
    }

    /// True exactly when no violation has been recorded since the last clear.
    pub fn is_zero_allocation_maintained(&self) -> (r: bool)
        ensures
            r == (self@.zero_allocation_violations == 0),
    {
        self.zero_allocation_violations == 0
    }

    /// A frame boundary: the per-frame counter starts over.
    pub fn begin_frame(&mut self)
        ensures
            final(self)@ == tracker_step(old(self)@, TrackerOp::NewFrame),
            tracker_wf(old(self)@) ==> tracker_wf(final(self)@),
    {
        self.frame_allocations = 0;
    }

    /// The explicit clear of a reporting cycle: reads the violation count and
    /// clears both lifetime counters together, so that the violation counter
    /// keeps agreeing with the hot-path counter.
    pub fn clear_violations(&mut self) -> (r: u64)
        ensures
            r == old(self).zero_allocation_violations,
            final(self)@ == tracker_step(old(self)@, TrackerOp::Clear),
            tracker_wf(final(self)@),
    {
        let read = self.zero_allocation_violations;
        self.zero_allocation_violations = 0;
        self.hot_path_allocations = 0;
        read
    }
}

} // verus!
