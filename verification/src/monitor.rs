//! The composite performance monitor: timer, FPS counter, memory tracker,
//! thermal monitor, targets, and a bounded history of recent frames.
//!
//! The history keeps the most recent frames only: when recording would push
//! it past its capacity, the oldest entry is evicted first. CPU and GPU
//! utilization are supplied by a telemetry collaborator, in tenths of a
//! percent; this monitor never reads sensors itself.

use vstd::prelude::*;
use std::collections::VecDeque;
use crate::thermal::ThermalMonitor;
use crate::thermal::thermal_state_current;
use crate::timing::FpsCounter;
use crate::timing::HighPrecisionTimer;
use crate::timing::TimerError;
use crate::timing::fps_milli_of_frame_time;
use crate::timing::fps_updated;
use crate::timing::fps_wf;
use crate::timing::timer_after_end;
use crate::timing::timer_after_start;
use crate::timing::timer_wf;

verus! {

/// How many frames the history keeps by default.
pub const DEFAULT_HISTORY_CAPACITY: usize = 1000;

/// Immutable snapshot of one finished frame. Times are microseconds,
/// utilizations tenths of a percent, the temperature tenths of a degree
/// Celsius, and the rate milli-FPS.
#[derive(Debug, Clone, Copy, PartialEq, Eq, Structural)]
pub struct PerformanceFrame {
    pub timestamp_us: u64,
    pub frame_time_us: u64,
    pub cpu_usage_tenths: u32,
    pub gpu_usage_tenths: u32,
    pub memory_usage: u64,
    pub temperature_tenths: i32,
    pub fps_milli: u64,
}

/// Thresholds a frame must meet. The rate is milli-FPS, the frame time
/// microseconds, utilizations tenths of a percent, the temperature tenths
/// of a degree, and the fan speed RPM.
#[derive(Debug, Clone, Copy, PartialEq, Eq, Structural)]
pub struct PerformanceTargets {
    pub target_fps_milli: u64,
    pub max_frame_time_us: u64,
    pub max_cpu_usage_tenths: u32,
    pub max_gpu_usage_tenths: u32,
    pub max_temperature_tenths: i32,
    pub max_fan_speed: u32,
}

impl Default for PerformanceTargets {
    /// The default targets: 60 FPS within a 16 ms budget, 30% CPU, 70% GPU,
    /// 75.0 C and a silent 2000 RPM fan.
    fn default() -> (r: PerformanceTargets)
        ensures
            r.target_fps_milli == 60_000,
            r.max_frame_time_us == 16_000,
            r.max_cpu_usage_tenths == 300,
            r.max_gpu_usage_tenths == 700,
            r.max_temperature_tenths == 750,
            r.max_fan_speed == 2000,
    {
        PerformanceTargets {
            target_fps_milli: 60_000,
            max_frame_time_us: 16_000,
            max_cpu_usage_tenths: 300,
            max_gpu_usage_tenths: 700,
            max_temperature_tenths: 750,
            max_fan_speed: 2000,
        }
    }
}

/// Memory usage counters, fed by the embedding allocator instrumentation.
pub struct MemoryTracker {
    pub current_usage: u64,
    pub peak_usage: u64,
    pub allocation_count: u64,
    pub deallocation_count: u64,
    pub gc_pressure_permille: u32,
}

impl MemoryTracker {
    /// A fresh tracker with all counters at zero.
    pub fn new() -> (r: MemoryTracker)
        ensures
            r.current_usage == 0,
            r.peak_usage == 0,
            r.allocation_count == 0,
            r.deallocation_count == 0,
            r.gc_pressure_permille == 0,
    {
        MemoryTracker {
            current_usage: 0,
            peak_usage: 0,
            allocation_count: 0,
            deallocation_count: 0,
            gc_pressure_permille: 0,
        }
    }
}

/// The history after one frame is recorded: the frame goes to the back, and
/// when the history is full the oldest entry leaves first.
pub open spec fn history_step(
    h: Seq<PerformanceFrame>,
    cap: nat,
    f: PerformanceFrame,
) -> Seq<PerformanceFrame> {
    if h.len() >= cap {
        h.drop_first().push(f)
    } else {
        h.push(f)
    }
}

/// The history after a whole sequence of frames is recorded in order.
pub open spec fn history_run(
    h: Seq<PerformanceFrame>,
    cap: nat,
    frames: Seq<PerformanceFrame>,
) -> Seq<PerformanceFrame>
    decreases frames.len(),
{
    if frames.len() == 0 {
        h
    } else {
        history_step(history_run(h, cap, frames.drop_last()), cap, frames.last())
    }
}

/// History bound: recording any sequence of frames leaves exactly the most
/// recent `cap` of them (or all of them, while they still fit), in insertion
/// order.
pub proof fn lemma_history_bound(
    h: Seq<PerformanceFrame>,
    cap: nat,
    frames: Seq<PerformanceFrame>,
)
    requires
        cap >= 1,
        h.len() <= cap,
    ensures
        history_run(h, cap, frames).len() == if h.len() + frames.len() <= cap {
            h.len() + frames.len()
        } else {
            cap
        },
        history_run(h, cap, frames) == (h + frames).subrange(
            h.len() + frames.len() - history_run(h, cap, frames).len(),
            (h.len() + frames.len()) as int,
        ),
    decreases frames.len(),
{
    let out = history_run(h, cap, frames);
    let total = h + frames;
    if frames.len() == 0 {
        assert(total =~= h);
        assert(out == total.subrange(total.len() - out.len(), total.len() as int)) by {
            assert(total.subrange(0, total.len() as int) =~= total);
        }
    } else {
        let prior = history_run(h, cap, frames.drop_last());
        lemma_history_bound(h, cap, frames.drop_last());
        assert(h + frames.drop_last() =~= total.drop_last());
        assert(out == total.subrange(total.len() - out.len(), total.len() as int)) by {
            assert(out =~= total.subrange(total.len() - out.len(), total.len() as int));
        }
    }
}

/// The full monitor owned by the simulation thread.
pub struct PerformanceMonitor {
    pub frame_timer: HighPrecisionTimer,
    pub fps_counter: FpsCounter,
    pub memory_tracker: MemoryTracker,
    pub thermal_monitor: ThermalMonitor,
    pub performance_history: VecDeque<PerformanceFrame>,
    pub history_capacity: usize,
    pub targets: PerformanceTargets,
    pub cpu_usage_tenths: u32,
    pub gpu_usage_tenths: u32,
}

/// The monitor's internal invariant: its parts are well formed and the
/// history fits its capacity.
pub open spec fn monitor_wf(m: PerformanceMonitor) -> bool {
    &&& timer_wf(m.frame_timer)
    &&& fps_wf(m.fps_counter)
    &&& m.history_capacity >= 1
    &&& m.performance_history@.len() <= m.history_capacity
}

/// The snapshot that closing a frame of the given duration records: the
/// accumulated time after the frame as its timestamp, the rederived rate,
/// and the latest memory, thermal and utilization samples.
pub open spec fn frame_snapshot(m: PerformanceMonitor, now_us: u64) -> PerformanceFrame {
    PerformanceFrame {
        timestamp_us: timer_after_end(m.frame_timer, now_us).accumulated_time_us,
        frame_time_us: (now_us - m.frame_timer.frame_start_us) as u64,
        cpu_usage_tenths: m.cpu_usage_tenths,
        gpu_usage_tenths: m.gpu_usage_tenths,
        memory_usage: m.memory_tracker.current_usage,
        temperature_tenths: m.thermal_monitor.cpu_temp_tenths,
        fps_milli: fps_milli_of_frame_time((now_us - m.frame_timer.frame_start_us) as nat) as u64,
    }
}

/// The fully determined state a fresh monitor starts in, capacity aside: a
/// timer anchored at `now_us` with no frame open, an FPS counter aiming at
/// 60 FPS with no sample and zeroed statistics (the minimum at the largest
/// representable value), zeroed memory and utilization samples, the cool
/// and quiet thermal defaults, the default targets, and an empty history.
pub open spec fn monitor_fresh(m: PerformanceMonitor, now_us: u64) -> bool {
    &&& m.frame_timer.last_frame_us == now_us
    &&& m.frame_timer.frame_start_us == now_us
    &&& m.frame_timer.accumulated_time_us == 0
    &&& m.frame_timer.frame_count == 0
    &&& !m.frame_timer.timing
    &&& m.fps_counter.current_fps_milli == 0
    &&& m.fps_counter.average_fps_milli == 0
    &&& m.fps_counter.min_fps_milli == u64::MAX
    &&& m.fps_counter.max_fps_milli == 0
    &&& m.fps_counter.frame_time_variance_us == 0
    &&& m.fps_counter.target_fps_milli == 60_000
    &&& !m.fps_counter.has_sample
    &&& m.memory_tracker.current_usage == 0
    &&& m.memory_tracker.peak_usage == 0
    &&& m.memory_tracker.allocation_count == 0
    &&& m.memory_tracker.deallocation_count == 0
    &&& m.memory_tracker.gc_pressure_permille == 0
    &&& m.thermal_monitor.cpu_temp_tenths == 450
    &&& m.thermal_monitor.gpu_temp_tenths == 400
    &&& m.thermal_monitor.fan_speed == 1200
    &&& !m.thermal_monitor.throttling_active
    &&& m.thermal_monitor.thermal_state is Cool
    &&& m.performance_history@ == Seq::<PerformanceFrame>::empty()
    &&& m.targets.target_fps_milli == 60_000
    &&& m.targets.max_frame_time_us == 16_000
    &&& m.targets.max_cpu_usage_tenths == 300
    &&& m.targets.max_gpu_usage_tenths == 700
    &&& m.targets.max_temperature_tenths == 750
    &&& m.targets.max_fan_speed == 2000
    &&& m.cpu_usage_tenths == 0
    &&& m.gpu_usage_tenths == 0
}

impl PerformanceMonitor {
    /// A fresh monitor anchored at the given instant, aiming at the default
    /// targets, with an empty default-capacity history.
    pub fn new(now_us: u64) -> (r: PerformanceMonitor)
        ensures
            monitor_fresh(r, now_us),
            r.history_capacity == DEFAULT_HISTORY_CAPACITY,
            thermal_state_current(r.thermal_monitor),
            monitor_wf(r),
    {
        PerformanceMonitor {
            frame_timer: HighPrecisionTimer::new(now_us),
            fps_counter: FpsCounter::new(60_000),
            memory_tracker: MemoryTracker::new(),
            thermal_monitor: ThermalMonitor::new(),
            performance_history: VecDeque::new(),
            history_capacity: DEFAULT_HISTORY_CAPACITY,
            targets: PerformanceTargets::default(),
            cpu_usage_tenths: 0,
            gpu_usage_tenths: 0,
        }
    }

    /// A fresh monitor like `new`, but keeping the given number of frames
    /// of history instead of the default.
    pub fn with_history_capacity(now_us: u64, history_capacity: usize) -> (r: PerformanceMonitor)
        requires
            history_capacity >= 1,
        ensures
            monitor_fresh(r, now_us),
            r.history_capacity == history_capacity,
            thermal_state_current(r.thermal_monitor),
            monitor_wf(r),
    {
        let mut monitor = PerformanceMonitor::new(now_us);
        monitor.history_capacity = history_capacity;
        monitor
    }

    /// Stores the latest utilization sample from the telemetry collaborator.
    pub fn set_usage_sample(&mut self, cpu_usage_tenths: u32, gpu_usage_tenths: u32)
        ensures
            *final(self) == (PerformanceMonitor { cpu_usage_tenths, gpu_usage_tenths, ..*old(self) }),
    {
        self.cpu_usage_tenths = cpu_usage_tenths;
        self.gpu_usage_tenths = gpu_usage_tenths;
    }

    /// Opens a frame at the given instant; fails fast when one is open.
    pub fn start_frame(&mut self, now_us: u64) -> (r: Result<(), TimerError>)
        requires
            monitor_wf(*old(self)),
            now_us >= old(self).frame_timer.last_frame_us,
        ensures
            monitor_wf(*final(self)),
            old(self).frame_timer.timing ==> r == Result::<(), TimerError>::Err(
                TimerError::AlreadyTiming,
            ) && *final(self) == *old(self),
            !old(self).frame_timer.timing ==> r == Result::<(), TimerError>::Ok(()) && *final(self)
                == (PerformanceMonitor {
                frame_timer: timer_after_start(old(self).frame_timer, now_us),
                ..*old(self)
            }),
    {
        self.frame_timer.start_frame(now_us)
    }

    /// Closes the open frame at the given instant: returns its duration,
    /// folds it into the FPS statistics, and records a snapshot of the frame
    /// in the history. Fails fast, changing nothing, when no frame is open.
    pub fn end_frame(&mut self, now_us: u64) -> (r: Result<u64, TimerError>)
        requires
            monitor_wf(*old(self)),
            now_us >= old(self).frame_timer.last_frame_us,
            now_us >= old(self).frame_timer.frame_start_us,
            old(self).frame_timer.frame_count < u64::MAX,
        ensures
            monitor_wf(*final(self)),
            !old(self).frame_timer.timing ==> r == Result::<u64, TimerError>::Err(
                TimerError::NotTiming,
            ) && *final(self) == *old(self),
            old(self).frame_timer.timing ==> {
                &&& r == Result::<u64, TimerError>::Ok(
                    (now_us - old(self).frame_timer.frame_start_us) as u64,
                )
                &&& final(self).frame_timer == timer_after_end(old(self).frame_timer, now_us)
                &&& final(self).fps_counter == fps_updated(
                    old(self).fps_counter,
                    (now_us - old(self).frame_timer.frame_start_us) as nat,
                )
                &&& final(self).performance_history@ == history_step(
                    old(self).performance_history@,
                    old(self).history_capacity as nat,
                    frame_snapshot(*old(self), now_us),
                )
                &&& final(self).performance_history@.len() == if old(
                    self,
                ).performance_history@.len() < old(self).history_capacity {
                    old(self).performance_history@.len() + 1
                } else {
                    old(self).history_capacity as nat
                }
                &&& final(self).memory_tracker == old(self).memory_tracker
                &&& final(self).thermal_monitor == old(self).thermal_monitor
                &&& final(self).targets == old(self).targets
                &&& final(self).history_capacity == old(self).history_capacity
                &&& final(self).cpu_usage_tenths == old(self).cpu_usage_tenths
                &&& final(self).gpu_usage_tenths == old(self).gpu_usage_tenths
            },
    {
        match self.frame_timer.end_frame(now_us) {
            Err(e) => Err(e),
            Ok(frame_time_us) => {
                self.fps_counter.update(frame_time_us);

                let frame = PerformanceFrame {
                    timestamp_us: self.frame_timer.accumulated_time_us,
                    frame_time_us,
                    cpu_usage_tenths: self.cpu_usage_tenths,
                    gpu_usage_tenths: self.gpu_usage_tenths,
                    memory_usage: self.memory_tracker.current_usage,
                    temperature_tenths: self.thermal_monitor.cpu_temp_tenths,
                    fps_milli: self.fps_counter.current_fps_milli,
                };
                self.record(frame);
                Ok(frame_time_us)
            },
        }
    }

    /// Appends one frame to the bounded history, evicting the oldest entry
    /// first when the history is full.
    pub fn record(&mut self, frame: PerformanceFrame)
        requires
            old(self).history_capacity >= 1,
            old(self).performance_history@.len() <= old(self).history_capacity,
        ensures
            final(self).performance_history@ == history_step(
                old(self).performance_history@,
                old(self).history_capacity as nat,
                frame,
            ),
            final(self).performance_history@.len() == if old(self).performance_history@.len()
                < old(self).history_capacity {
                old(self).performance_history@.len() + 1
            } else {
                old(self).history_capacity as nat
            },
            final(self).performance_history@.len() <= final(self).history_capacity,
            *final(self) == (PerformanceMonitor {
                performance_history: final(self).performance_history,
                ..*old(self)
            }),
    {
        if self.performance_history.len() >= self.history_capacity {
            self.performance_history.pop_front();
            proof {
                assert(old(self).performance_history@.drop_first() =~= self.performance_history@);
            }
        }
        self.performance_history.push_back(frame);
    }

    /// Compliance check: all three thresholds hold at once — the current
    /// rate meets the target, the CPU temperature is within bounds, and the
    /// fan is within its speed limit.
    pub fn check_performance_targets(&self) -> (r: bool)
        ensures
            r == {
                &&& self.fps_counter.current_fps_milli >= self.targets.target_fps_milli
                &&& self.thermal_monitor.cpu_temp_tenths <= self.targets.max_temperature_tenths
                &&& self.thermal_monitor.fan_speed <= self.targets.max_fan_speed
            },
    {
        self.fps_counter.current_fps_milli >= self.targets.target_fps_milli
            && self.thermal_monitor.cpu_temp_tenths <= self.targets.max_temperature_tenths
            && self.thermal_monitor.fan_speed <= self.targets.max_fan_speed
    }

    /// How many frames the history currently holds.
    pub fn history_len(&self) -> (r: usize)
        ensures
            r == self.performance_history@.len(),
    {
        self.performance_history.len()
    }
}

} // verus!
