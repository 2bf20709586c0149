//! High-precision frame timing and FPS derivation.
//!
//! The timer does not read a clock itself: the embedding loop hands every
//! call the current reading of its monotonic clock in microseconds, so the
//! whole timing state machine is a pure function of those readings. A frame
//! is bounded by `start_frame` and `end_frame`; starting a frame that is
//! already running, or ending one that is not, is rejected without mutating
//! anything rather than silently corrupting the accumulated time.
//!
//! Frame rates are carried in milli-FPS (thousandths of a frame per second),
//! derived from the microsecond frame time, which keeps sub-millisecond
//! resolution without floating point.

use vstd::prelude::*;

verus! {

/// Rejection of a frame-timing call made in the wrong state.
#[derive(Debug, Clone, Copy, PartialEq, Eq, Structural)]
pub enum TimerError {
    /// `start_frame` arrived while a frame was already being timed.
    AlreadyTiming,
    /// `end_frame` arrived with no frame being timed.
    NotTiming,
}

/// Frame timing state. All instants are readings of one monotonic clock in
/// microseconds.
pub struct HighPrecisionTimer {
    pub last_frame_us: u64,
    pub frame_start_us: u64,
    pub accumulated_time_us: u64,
    pub frame_count: u64,
    pub timing: bool,
}

/// The timer's internal invariant: the accumulated time of the disjoint
/// finished frames cannot exceed the latest instant seen, and while a frame
/// is open it started no earlier than the previous frame ended.
pub open spec fn timer_wf(t: HighPrecisionTimer) -> bool {
    &&& t.accumulated_time_us <= t.last_frame_us
    &&& t.timing ==> t.last_frame_us <= t.frame_start_us
}

/// The timer after a frame is opened at `now_us`.
pub open spec fn timer_after_start(t: HighPrecisionTimer, now_us: u64) -> HighPrecisionTimer {
    HighPrecisionTimer { frame_start_us: now_us, timing: true, ..t }
}

/// The timer after the open frame is closed at `now_us`.
pub open spec fn timer_after_end(t: HighPrecisionTimer, now_us: u64) -> HighPrecisionTimer {
    HighPrecisionTimer {
        last_frame_us: now_us,
        accumulated_time_us: (t.accumulated_time_us + now_us - t.frame_start_us) as u64,
        frame_count: (t.frame_count + 1) as u64,
        timing: false,
        ..t
    }
}

impl HighPrecisionTimer {
    /// A fresh timer anchored at the given instant, with no frame open.
    pub fn new(now_us: u64) -> (r: HighPrecisionTimer)
        ensures
            r.last_frame_us == now_us,
            r.frame_start_us == now_us,
            r.accumulated_time_us == 0,
            r.frame_count == 0,
            !r.timing,
            timer_wf(r),
    {
        HighPrecisionTimer {
            last_frame_us: now_us,
            frame_start_us: now_us,
            accumulated_time_us: 0,
            frame_count: 0,
            timing: false,
        }
    }

    /// Opens a frame at the given instant. Fails fast, changing nothing,
    /// when a frame is already open.
    pub fn start_frame(&mut self, now_us: u64) -> (r: Result<(), TimerError>)
        requires
            timer_wf(*old(self)),
            now_us >= old(self).last_frame_us,
        ensures
            timer_wf(*final(self)),
            old(self).timing ==> r == Result::<(), TimerError>::Err(TimerError::AlreadyTiming)
                && *final(self) == *old(self),
            !old(self).timing ==> r == Result::<(), TimerError>::Ok(()) && *final(self)
                == timer_after_start(*old(self), now_us),
    {
        if self.timing {
            Err(TimerError::AlreadyTiming)
        } else {
            self.frame_start_us = now_us;
            self.timing = true;
            Ok(())
        }
    }

    /// Closes the open frame at the given instant and returns its duration,
    /// which is also added to the accumulated time. Fails fast, changing
    /// nothing, when no frame is open.
    pub fn end_frame(&mut self, now_us: u64) -> (r: Result<u64, TimerError>)
        requires
            timer_wf(*old(self)),
            now_us >= old(self).last_frame_us,
            now_us >= old(self).frame_start_us,
            old(self).frame_count < u64::MAX,
        ensures
            timer_wf(*final(self)),
            !old(self).timing ==> r == Result::<u64, TimerError>::Err(TimerError::NotTiming)
                && *final(self) == *old(self),
            old(self).timing ==> r == Result::<u64, TimerError>::Ok(
                (now_us - old(self).frame_start_us) as u64,
            ) && *final(self) == timer_after_end(*old(self), now_us),
    {
        if !self.timing {
            Err(TimerError::NotTiming)
        } else {
            let frame_time = now_us - self.frame_start_us;
            self.accumulated_time_us += frame_time;
            self.frame_count += 1;
            self.last_frame_us = now_us;
            self.timing = false;
            Ok(frame_time)
        }
    }
}

/// The highest frame rate the counter reports, in milli-FPS: one frame per
/// microsecond.
pub const MAX_FPS_MILLI: u64 = 1_000_000_000;

/// The frame rate assigned to a frame time: 1000 / frame-time-in-ms,
/// expressed over integers as 1e9 / frame-time-in-us. A frame shorter than
/// one microsecond is clamped to one microsecond.
pub open spec fn fps_milli_of_frame_time(frame_time_us: nat) -> nat {
    if frame_time_us == 0 {
        MAX_FPS_MILLI as nat
    } else {
        (MAX_FPS_MILLI as nat) / frame_time_us
    }
}

/// FPS statistics over the frames seen so far, in milli-FPS. The minimum
/// starts at the largest representable value so the first real sample always
/// replaces it; the average is an exponential moving average with a
/// smoothing factor of one eighth, seeded with the first sample.
pub struct FpsCounter {
    pub current_fps_milli: u64,
    pub average_fps_milli: u64,
    pub min_fps_milli: u64,
    pub max_fps_milli: u64,
    pub frame_time_variance_us: u64,
    pub target_fps_milli: u64,
    pub has_sample: bool,
}

/// The counter's internal invariant: a positive target, and every derived
/// rate within the representable range.
pub open spec fn fps_wf(c: FpsCounter) -> bool {
    &&& c.target_fps_milli >= 1
    &&& c.current_fps_milli <= MAX_FPS_MILLI
    &&& c.average_fps_milli <= MAX_FPS_MILLI
    &&& c.max_fps_milli <= MAX_FPS_MILLI
    &&& c.has_sample ==> c.min_fps_milli <= MAX_FPS_MILLI
    &&& !c.has_sample ==> c.min_fps_milli == u64::MAX && c.max_fps_milli == 0
        && c.current_fps_milli == 0 && c.average_fps_milli == 0
}

/// The frame time a target frame rate asks for, in microseconds.
pub open spec fn target_frame_time_us(target_fps_milli: nat) -> nat
    recommends
        target_fps_milli >= 1,
{
    (MAX_FPS_MILLI as nat) / target_fps_milli
}

/// The exponential moving average after one more sample.
pub open spec fn ema_eighth(average: nat, sample: nat) -> nat {
    (7 * average + sample) / 8
}

/// The absolute difference of two instants or durations.
pub open spec fn abs_diff(a: nat, b: nat) -> nat {
    if a >= b {
        (a - b) as nat
    } else {
        (b - a) as nat
    }
}

/// The counter after one measured frame time is folded in: the current rate
/// rederived from the frame time, the extrema updated, the variance set to
/// the distance from the target frame time, and the moving average advanced
/// (or seeded by the first sample).
pub open spec fn fps_updated(c: FpsCounter, frame_time_us: nat) -> FpsCounter {
    let current = fps_milli_of_frame_time(frame_time_us);
    FpsCounter {
        current_fps_milli: current as u64,
        average_fps_milli: if c.has_sample {
            ema_eighth(c.average_fps_milli as nat, current) as u64
        } else {
            current as u64
        },
        min_fps_milli: if c.min_fps_milli <= current {
            c.min_fps_milli
        } else {
            current as u64
        },
        max_fps_milli: if c.max_fps_milli >= current {
            c.max_fps_milli
        } else {
            current as u64
        },
        frame_time_variance_us: abs_diff(
            frame_time_us,
            target_frame_time_us(c.target_fps_milli as nat),
        ) as u64,
        target_fps_milli: c.target_fps_milli,
        has_sample: true,
    }
}

impl FpsCounter {
    /// A fresh counter aiming at the given target rate, with no sample yet.
    pub fn new(target_fps_milli: u64) -> (r: FpsCounter)
        requires
            target_fps_milli >= 1,
        ensures
            r.current_fps_milli == 0,
            r.average_fps_milli == 0,
            r.min_fps_milli == u64::MAX,
            r.max_fps_milli == 0,
            r.frame_time_variance_us == 0,
            r.target_fps_milli == target_fps_milli,
            !r.has_sample,
            fps_wf(r),
    {
        FpsCounter {
            current_fps_milli: 0,
            average_fps_milli: 0,
            min_fps_milli: u64::MAX,
            max_fps_milli: 0,
            frame_time_variance_us: 0,
            target_fps_milli,
            has_sample: false,
        }
    }

    /// Folds one measured frame time into the statistics: the current rate
    /// is rederived, the extrema and the moving average updated, and the
    /// variance set to the distance from the target frame time.
    pub fn update(&mut self, frame_time_us: u64)
        requires
            fps_wf(*old(self)),
        ensures
            fps_wf(*final(self)),
            *final(self) == fps_updated(*old(self), frame_time_us as nat),
            final(self).current_fps_milli == fps_milli_of_frame_time(frame_time_us as nat),
    {
        let current: u64 = if frame_time_us == 0 {
            MAX_FPS_MILLI
        } else {
            MAX_FPS_MILLI / frame_time_us
        };
        self.current_fps_milli = current;

        if current < self.min_fps_milli {
            self.min_fps_milli = current;
        }
        if current > self.max_fps_milli {
            self.max_fps_milli = current;
        }

        let target_frame_time: u64 = MAX_FPS_MILLI / self.target_fps_milli;
        self.frame_time_variance_us = if frame_time_us >= target_frame_time {
            frame_time_us - target_frame_time
        } else {
            target_frame_time - frame_time_us
        };

        self.average_fps_milli = if self.has_sample {
            (7 * self.average_fps_milli + current) / 8
        } else {
            current
        };
        self.has_sample = true;
    }
}

} // verus!
