//! The per-frame governor: FPS accounting over one-second intervals,
//! violation reporting, and the per-frame pool reset.
//!
//! The governor consumes the frame delta measured by the embedding loop and
//! closes the feedback loop: it derives the interval FPS, reads and clears
//! the violation counter once per reporting interval, resets the four pools
//! at the frame boundary, and reports what a logging or alerting layer would
//! want to surface.

use vstd::prelude::*;
use crate::config::EngineConfig;
use crate::config::PerformanceMode;
use crate::config::config_wf;
use crate::pool::EntityPool;
use crate::pool::InputEventPool;
use crate::pool::MemoryPools;
use crate::pool::PoolOp;
use crate::pool::RenderCommandPool;
use crate::pool::TransformPool;
use crate::pool::pool_step;
use crate::pool::pools_wf;
use crate::thermal::ThermalState;
use crate::tracker::AllocationTracker;
use crate::tracker::TrackerOp;
use crate::tracker::tracker_step;
use crate::tracker::tracker_wf;

verus! {

/// Length of one FPS reporting interval, in microseconds.
pub const FPS_INTERVAL_US: u64 = 1_000_000;

/// The interval frame rate in milli-FPS: frames per elapsed microseconds,
/// scaled to thousandths of a frame per second.
pub open spec fn interval_fps_milli(frames: nat, elapsed_us: nat) -> nat
    recommends
        elapsed_us >= 1,
{
    frames * 1_000_000_000 / elapsed_us
}

/// A value clamped to the representable range of the counter.
pub open spec fn capped_u64(x: nat) -> nat {
    if x > u64::MAX {
        u64::MAX as nat
    } else {
        x
    }
}

/// Builds the four frame pools the configuration asks for: entity and
/// transform pools sized for the configured entity count, 10000 render
/// commands and 1000 input events per frame, all empty.
pub fn initialize_memory_pools(config: &EngineConfig) -> (p: MemoryPools)
    ensures
        p.entity_pool.capacity == config.max_entities,
        p.transform_pool.capacity == config.max_entities,
        p.render_command_pool.capacity == 10_000,
        p.input_event_pool.capacity == 1000,
        p.entity_pool.used == 0,
        p.transform_pool.used == 0,
        p.render_command_pool.used == 0,
        p.input_event_pool.used == 0,
        pools_wf(p),
{
    MemoryPools {
        entity_pool: EntityPool { capacity: config.max_entities as usize, used: 0 },
        transform_pool: TransformPool { capacity: config.max_entities as usize, used: 0 },
        render_command_pool: RenderCommandPool { capacity: 10_000, used: 0 },
        input_event_pool: InputEventPool { capacity: 1000, used: 0 },
    }
}

/// What one governor step surfaces for logging and alerting.
#[derive(Debug, Clone, Copy, PartialEq, Eq, Structural)]
pub struct FrameReport {
    /// Whether this step closed a reporting interval and rederived the FPS.
    pub fps_updated: bool,
    /// The rate after this step, in milli-FPS.
    pub current_fps_milli: u64,
    /// The violations read and cleared by this step; zero between intervals.
    pub violations: u64,
    /// Whether the rederived rate fell below 95 percent of the target.
    pub below_target: bool,
    /// Whether the frame period implied by the rederived rate exceeded
    /// twice the frame time budget.
    pub over_budget: bool,
    /// Pool cursors at the end of the frame, before the boundary reset.
    pub entity_used: usize,
    pub transform_used: usize,
    pub render_used: usize,
    pub input_used: usize,
}

/// Per-frame governor counters. Times are microseconds and rates milli-FPS.
pub struct PerformanceMonitor {
    pub frame_count: u64,
    pub total_time_us: u64,
    pub last_fps_update_us: u64,
    pub current_fps_milli: u64,
    pub target_fps_milli: u64,
    pub frame_time_budget_us: u64,
    pub allocation_tracker: AllocationTracker,
}

/// The governor's internal invariant: a positive target, the interval
/// anchor within the accumulated time, and a coherent tracker.
pub open spec fn governor_wf(m: PerformanceMonitor) -> bool {
    &&& m.target_fps_milli >= 1
    &&& m.last_fps_update_us <= m.total_time_us
    &&& tracker_wf(m.allocation_tracker@)
}

impl PerformanceMonitor {
    /// A fresh governor for the configured target rate, with all counters
    /// at zero and a frame time budget of one second per target frame.
    pub fn from_config(config: &EngineConfig) -> (r: PerformanceMonitor)
        requires
            config_wf(*config),
        ensures
            r.frame_count == 0,
            r.total_time_us == 0,
            r.last_fps_update_us == 0,
            r.current_fps_milli == 0,
            r.target_fps_milli == config.target_fps * 1000,
            r.frame_time_budget_us == 1_000_000u64 / config.target_fps as u64,
            r.allocation_tracker@.hot_path_allocations == 0,
            r.allocation_tracker@.frame_allocations == 0,
            r.allocation_tracker@.peak_allocations_per_frame == 0,
            r.allocation_tracker@.zero_allocation_violations == 0,
            governor_wf(r),
    {
        PerformanceMonitor {
            frame_count: 0,
            total_time_us: 0,
            last_fps_update_us: 0,
            current_fps_milli: 0,
            target_fps_milli: config.target_fps as u64 * 1000,
            frame_time_budget_us: 1_000_000 / config.target_fps as u64,
            allocation_tracker: AllocationTracker::new(),
        }
    }

    /// One governor step at a frame boundary, fed the measured frame delta.
    ///
    /// Every step starts a new tracker frame, counts the frame and
    /// accumulates its delta, and ends by resetting all four pools. When the
    /// time since the last report reaches one second the step also closes
    /// the reporting interval: it rederives the rate from the frames of the
    /// interval, anchors the next interval, and reads and clears the
    /// violation counter if any violation was recorded.
    pub fn frame_update(&mut self, delta_us: u64, pools: &mut MemoryPools) -> (r: FrameReport)
        requires
            governor_wf(*old(self)),
            old(self).total_time_us + delta_us <= u64::MAX,
            old(self).frame_count < u64::MAX,
        ensures
            governor_wf(*final(self)),
            final(self).target_fps_milli == old(self).target_fps_milli,
            final(self).frame_time_budget_us == old(self).frame_time_budget_us,
            final(self).total_time_us == old(self).total_time_us + delta_us,
            // The four pools are reset at the frame boundary, whatever else
            // the step did.
            final(pools).entity_pool@ == pool_step(old(pools).entity_pool@, PoolOp::Reset),
            final(pools).transform_pool@ == pool_step(old(pools).transform_pool@, PoolOp::Reset),
            final(pools).render_command_pool@ == pool_step(
                old(pools).render_command_pool@,
                PoolOp::Reset,
            ),
            final(pools).input_event_pool@ == pool_step(
                old(pools).input_event_pool@,
                PoolOp::Reset,
            ),
            // The report always snapshots the pool cursors of the frame
            // that just ended.
            r.entity_used == old(pools).entity_pool.used,
            r.transform_used == old(pools).transform_pool.used,
            r.render_used == old(pools).render_command_pool.used,
            r.input_used == old(pools).input_event_pool.used,
            r.current_fps_milli == final(self).current_fps_milli,
            r.fps_updated == (old(self).total_time_us + delta_us - old(self).last_fps_update_us
                >= FPS_INTERVAL_US),
            // Between reporting intervals the step only counts.
            !r.fps_updated ==> {
                &&& final(self).frame_count == old(self).frame_count + 1
                &&& final(self).last_fps_update_us == old(self).last_fps_update_us
                &&& final(self).current_fps_milli == old(self).current_fps_milli
                &&& final(self).allocation_tracker@ == tracker_step(
                    old(self).allocation_tracker@,
                    TrackerOp::NewFrame,
                )
                &&& r.violations == 0
                &&& !r.below_target
                &&& !r.over_budget
            },
            // Closing a reporting interval rederives the rate from the
            // frames of the interval, anchors the next interval, and reads
            // and clears the violation counter.
            r.fps_updated ==> {
                let elapsed = old(self).total_time_us + delta_us - old(
                    self,
                ).last_fps_update_us;
                &&& final(self).current_fps_milli == capped_u64(
                    interval_fps_milli((old(self).frame_count + 1) as nat, elapsed as nat),
                )
                &&& final(self).last_fps_update_us == old(self).total_time_us + delta_us
                &&& final(self).frame_count == 0
                &&& r.violations == old(self).allocation_tracker@.zero_allocation_violations
                &&& final(self).allocation_tracker@ == tracker_step(
                    tracker_step(old(self).allocation_tracker@, TrackerOp::NewFrame),
                    TrackerOp::Clear,
                )
                &&& r.below_target == (final(self).current_fps_milli * 20 < old(
                    self,
                ).target_fps_milli * 19)
                &&& r.over_budget == (final(self).current_fps_milli == 0
                    || 1_000_000_000int / final(self).current_fps_milli as int > 2 * old(
                    self,
                ).frame_time_budget_us)
            },
    {
        // The new frame begins: the per-frame allocation counter starts over.
        self.allocation_tracker.begin_frame();

        self.frame_count = self.frame_count + 1;
        self.total_time_us = self.total_time_us + delta_us;

        let entity_used = pools.entity_pool.used;
        let transform_used = pools.transform_pool.used;
        let render_used = pools.render_command_pool.used;
        let input_used = pools.input_event_pool.used;

        let elapsed = self.total_time_us - self.last_fps_update_us;
        let report: FrameReport;
        if elapsed >= FPS_INTERVAL_US {
            let frames: u128 = self.frame_count as u128;
            let scaled: u128 = frames * 1_000_000_000 / elapsed as u128;
            let fps: u64 = if scaled > u64::MAX as u128 {
                u64::MAX
            } else {
                scaled as u64
            };
            self.current_fps_milli = fps;
            self.last_fps_update_us = self.total_time_us;
            self.frame_count = 0;

            let violations = if self.allocation_tracker.is_zero_allocation_maintained() {
                0
            } else {
                self.allocation_tracker.clear_violations()
            };

            let below_target = (fps as u128) * 20 < (self.target_fps_milli as u128) * 19;
            let over_budget = fps == 0 || (1_000_000_000 / fps) as u128 > 2
                * self.frame_time_budget_us as u128;

            report = FrameReport {
                fps_updated: true,
                current_fps_milli: fps,
                violations,
                below_target,
                over_budget,
                entity_used,
                transform_used,
                render_used,
                input_used,
            };
        } else {
            report = FrameReport {
                fps_updated: false,
                current_fps_milli: self.current_fps_milli,
                violations: 0,
                below_target: false,
                over_budget: false,
                entity_used,
                transform_used,
                render_used,
                input_used,
            };
        }

        // The frame boundary: every pool cursor returns to zero.
        pools.reset_all();

        report
    }
}

/// Whether the one-way quality degrade path should fire: only in the
/// thermally constrained laptop mode, and there when the thermal state is
/// hot or critical or the measured rate fell below 90 percent of the
/// target.
pub fn thermal_protection_needed(
    mode: PerformanceMode,
    state: ThermalState,
    current_fps_milli: u64,
    target_fps_milli: u64,
) -> (r: bool)
    ensures
        r == (mode is MacBookPro2014 && (state is Hot || state is Critical
            || current_fps_milli * 10 < target_fps_milli * 9)),
{
    match mode {
        PerformanceMode::MacBookPro2014 => {
            let degraded = (current_fps_milli as u128) * 10 < (target_fps_milli as u128) * 9;
            let hot = match state {
                ThermalState::Hot => true,
                ThermalState::Critical => true,
                _ => false,
            };
            hot || degraded
        },
        _ => false,
    }
}

} // verus!
