use mindland::tracker::AllocationTracker;

#[test]
fn test_allocation_tracker_zero_violation_detection() {
    let mut tracker = AllocationTracker {
        hot_path_allocations: 0,
        frame_allocations: 0,
        peak_allocations_per_frame: 0,
        zero_allocation_violations: 0,
    };

    assert!(tracker.is_zero_allocation_maintained());

    tracker.track_hot_path_allocation();

    assert!(!tracker.is_zero_allocation_maintained());
    assert_eq!(tracker.zero_allocation_violations, 1);
    assert_eq!(tracker.hot_path_allocations, 1);
    assert_eq!(tracker.frame_allocations, 1);
    assert_eq!(tracker.peak_allocations_per_frame, 1);

    tracker.track_hot_path_allocation();
    assert_eq!(tracker.zero_allocation_violations, 2);
    assert_eq!(tracker.peak_allocations_per_frame, 2);
}

#[test]
fn violations_always_equal_hot_path_allocations() {
    let mut tracker = AllocationTracker::new();
    for _ in 0..5 {
        tracker.track_hot_path_allocation();
        assert_eq!(tracker.zero_allocation_violations, tracker.hot_path_allocations);
    }
    tracker.begin_frame();
    assert_eq!(tracker.zero_allocation_violations, tracker.hot_path_allocations);
    let read = tracker.clear_violations();
    assert_eq!(read, 5);
    assert_eq!(tracker.zero_allocation_violations, tracker.hot_path_allocations);
    assert_eq!(tracker.zero_allocation_violations, 0);
}

#[test]
fn counter_decreases_only_through_explicit_clear() {
    let mut tracker = AllocationTracker::new();
    let mut previous: u64 = 0;
    for _ in 0..4 {
        tracker.track_hot_path_allocation();
        assert!(tracker.zero_allocation_violations >= previous);
        previous = tracker.zero_allocation_violations;
        tracker.begin_frame();
        assert!(tracker.zero_allocation_violations >= previous);
    }
    assert_eq!(tracker.zero_allocation_violations, 4);
    tracker.clear_violations();
    assert_eq!(tracker.zero_allocation_violations, 0);
}

#[test]
fn peak_tracks_the_busiest_frame() {
    let mut tracker = AllocationTracker::new();
    tracker.track_hot_path_allocation();
    tracker.track_hot_path_allocation();
    tracker.track_hot_path_allocation();
    assert_eq!(tracker.peak_allocations_per_frame, 3);

    tracker.begin_frame();
    assert_eq!(tracker.frame_allocations, 0);
    tracker.track_hot_path_allocation();
    assert_eq!(tracker.frame_allocations, 1);
    assert_eq!(tracker.peak_allocations_per_frame, 3);

    // The clear keeps the lifetime peak.
    tracker.clear_violations();
    assert_eq!(tracker.peak_allocations_per_frame, 3);
}
