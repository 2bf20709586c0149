//! Per-frame resource governor for a real-time rendering loop.
//!
//! The crate provides the frame-critical core of a game engine: fixed-capacity
//! bump-allocated pools that are reset once per frame, a tracker for
//! allocations that bypass those pools, keyboard/mouse input state with a
//! lock-free event queue, a high-precision frame timer with an FPS counter,
//! a thermal classification state machine driving quality degradation, and a
//! bounded history of recent frames.
//!
//! All quantities are integers with fixed units: durations and timestamps are
//! microseconds, frame rates are thousandths of a frame per second,
//! temperatures are tenths of a degree Celsius, usage ratios are tenths of a
//! percent, and densities are thousandths.

pub mod config;
pub mod governor;
pub mod input;
pub mod monitor;
pub mod pool;
pub mod thermal;
pub mod timing;
pub mod tracker;
