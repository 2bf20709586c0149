use mindland::monitor::PerformanceFrame;
use mindland::monitor::PerformanceMonitor;
use mindland::monitor::PerformanceTargets;
use mindland::timing::TimerError;

fn frame_with_timestamp(t: u64) -> PerformanceFrame {
    PerformanceFrame {
        timestamp_us: t,
        frame_time_us: 16_000,
        cpu_usage_tenths: 250,
        gpu_usage_tenths: 600,
        memory_usage: 0,
        temperature_tenths: 450,
        fps_milli: 62_500,
    }
}

#[test]
fn history_keeps_the_most_recent_thousand_in_order() {
    let mut monitor = PerformanceMonitor::new(0);
    assert_eq!(monitor.history_capacity, 1000);

    for t in 0..1500u64 {
        monitor.record(frame_with_timestamp(t));
    }

    assert_eq!(monitor.history_len(), 1000);
    // The survivors are the 1000 most recently inserted, oldest first.
    assert_eq!(monitor.performance_history[0].timestamp_us, 500);
    assert_eq!(monitor.performance_history[999].timestamp_us, 1499);
    for i in 0..1000usize {
        assert_eq!(monitor.performance_history[i].timestamp_us, 500 + i as u64);
    }
}

#[test]
fn a_small_history_evicts_the_oldest_first() {
    let mut monitor = PerformanceMonitor::with_history_capacity(0, 3);
    for t in 0..5u64 {
        monitor.record(frame_with_timestamp(t));
    }
    assert_eq!(monitor.history_len(), 3);
    assert_eq!(monitor.performance_history[0].timestamp_us, 2);
    assert_eq!(monitor.performance_history[1].timestamp_us, 3);
    assert_eq!(monitor.performance_history[2].timestamp_us, 4);
}

#[test]
fn ending_a_frame_updates_fps_and_records_a_snapshot() {
    let mut monitor = PerformanceMonitor::new(1_000);
    monitor.set_usage_sample(250, 600);

    assert_eq!(monitor.start_frame(2_000), Ok(()));
    assert_eq!(monitor.end_frame(18_000), Ok(16_000));

    assert_eq!(monitor.fps_counter.current_fps_milli, 62_500);
    assert_eq!(monitor.frame_timer.accumulated_time_us, 16_000);
    assert_eq!(monitor.history_len(), 1);

    let recorded = monitor.performance_history[0];
    assert_eq!(recorded.timestamp_us, 16_000);
    assert_eq!(recorded.frame_time_us, 16_000);
    assert_eq!(recorded.cpu_usage_tenths, 250);
    assert_eq!(recorded.gpu_usage_tenths, 600);
    assert_eq!(recorded.temperature_tenths, 450);
    assert_eq!(recorded.fps_milli, 62_500);
}

#[test]
fn monitor_rejects_mismatched_frame_boundaries() {
    let mut monitor = PerformanceMonitor::new(0);
    assert_eq!(monitor.end_frame(10), Err(TimerError::NotTiming));
    assert_eq!(monitor.start_frame(10), Ok(()));
    assert_eq!(monitor.start_frame(20), Err(TimerError::AlreadyTiming));
    assert_eq!(monitor.history_len(), 0);
}

#[test]
fn targets_check_needs_all_three_thresholds_at_once() {
    let mut monitor = PerformanceMonitor::new(0);

    // No sample yet: the rate is 0 and the check fails on it.
    assert!(!monitor.check_performance_targets());

    // One 16 ms frame: 62.5 FPS meets the 60 FPS target, and the default
    // cool temperature and quiet fan are within bounds.
    assert_eq!(monitor.start_frame(0), Ok(()));
    assert_eq!(monitor.end_frame(16_000), Ok(16_000));
    assert!(monitor.check_performance_targets());

    // A hot CPU alone breaks the conjunction.
    let gpu = monitor.thermal_monitor.gpu_temp_tenths;
    monitor.thermal_monitor.set_sample(800, gpu, 1200);
    assert!(!monitor.check_performance_targets());

    // Cool again, but a loud fan breaks it too.
    monitor.thermal_monitor.set_sample(450, gpu, 2500);
    assert!(!monitor.check_performance_targets());

    monitor.thermal_monitor.set_sample(450, gpu, 2000);
    assert!(monitor.check_performance_targets());
}

#[test]
fn default_targets_match_the_quiet_laptop_profile() {
    let targets = PerformanceTargets::default();
    assert_eq!(targets.target_fps_milli, 60_000);
    assert_eq!(targets.max_frame_time_us, 16_000);
    assert_eq!(targets.max_cpu_usage_tenths, 300);
    assert_eq!(targets.max_gpu_usage_tenths, 700);
    assert_eq!(targets.max_temperature_tenths, 750);
    assert_eq!(targets.max_fan_speed, 2000);
}
