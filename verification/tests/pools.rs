use mindland::pool::EntityPool;
use mindland::pool::InputEventPool;
use mindland::pool::MemoryPools;
use mindland::pool::RenderCommandPool;
use mindland::pool::TransformPool;

#[test]
fn test_memory_pool_allocation_tracking() {
    let mut memory_pools = MemoryPools {
        entity_pool: EntityPool { capacity: 1000, used: 0 },
        transform_pool: TransformPool { capacity: 1000, used: 0 },
        render_command_pool: RenderCommandPool { capacity: 1000, used: 0 },
        input_event_pool: InputEventPool { capacity: 1000, used: 0 },
    };

    let allocation = memory_pools.entity_pool.allocate(100);
    assert!(allocation.is_some(), "Entity pool allocation should succeed");
    assert_eq!(memory_pools.entity_pool.used, 100);

    let large_allocation = memory_pools.entity_pool.allocate(1000);
    assert!(large_allocation.is_none(), "Entity pool should be exhausted");

    memory_pools.entity_pool.reset();
    assert_eq!(memory_pools.entity_pool.used, 0);

    assert!(memory_pools.has_sufficient_capacity(500, 500, 500, 500));
    assert!(!memory_pools.has_sufficient_capacity(2000, 500, 500, 500));
}

#[test]
fn conservation_over_interleaved_allocations_and_resets() {
    let mut pool = EntityPool { capacity: 50, used: 0 };
    let mut granted: usize = 0;
    for count in [10usize, 20, 30, 5, 40] {
        if pool.allocate(count).is_some() {
            granted += count;
        }
        assert_eq!(pool.used, granted);
        assert!(pool.used <= pool.capacity);
    }
    // 10 and 20 fit, 30 does not (would reach 60), 5 fits, 40 does not.
    assert_eq!(pool.used, 35);

    pool.reset();
    granted = 0;
    for count in [25usize, 25, 1] {
        if pool.allocate(count).is_some() {
            granted += count;
        }
    }
    assert_eq!(pool.used, granted);
    assert_eq!(pool.used, 50);
}

#[test]
fn exhaustion_boundary_exact_fit_succeeds_one_more_fails() {
    let mut pool = TransformPool { capacity: 300, used: 0 };
    assert_eq!(pool.allocate(120), Some(0));

    let remaining = pool.capacity - pool.used;
    assert_eq!(pool.allocate(remaining + 1), None);
    assert_eq!(pool.used, 120, "a failed allocation must not move the cursor");

    assert_eq!(pool.allocate(remaining), Some(120));
    assert_eq!(pool.used, pool.capacity);

    // A full pool still grants the empty request and rejects any other.
    assert_eq!(pool.allocate(0), Some(300));
    assert_eq!(pool.allocate(1), None);
}

#[test]
fn reset_twice_leaves_used_zero_both_times() {
    let mut pool = RenderCommandPool { capacity: 10, used: 0 };
    pool.allocate(7);
    pool.reset();
    assert_eq!(pool.used, 0);
    pool.reset();
    assert_eq!(pool.used, 0);
}

#[test]
fn end_to_end_entity_pool_scenario() {
    let mut pool = EntityPool { capacity: 100, used: 0 };

    assert!(pool.allocate(60).is_some());
    assert_eq!(pool.used, 60);

    assert!(pool.allocate(50).is_none());
    assert_eq!(pool.used, 60);

    pool.reset();
    assert_eq!(pool.used, 0);

    assert!(pool.allocate(100).is_some());
    assert_eq!(pool.used, 100);
}

#[test]
fn oversized_request_cannot_overflow_the_cursor() {
    let mut pool = InputEventPool { capacity: 8, used: 3 };
    assert_eq!(pool.allocate(usize::MAX), None);
    assert_eq!(pool.used, 3);
}

#[test]
fn returned_base_index_is_previous_cursor() {
    let mut pool = EntityPool { capacity: 10, used: 0 };
    assert_eq!(pool.allocate(4), Some(0));
    assert_eq!(pool.allocate(3), Some(4));
    assert_eq!(pool.allocate(3), Some(7));
}

#[test]
fn available_capacity_reports_remaining_units() {
    let pools = MemoryPools {
        entity_pool: EntityPool { capacity: 100, used: 40 },
        transform_pool: TransformPool { capacity: 50, used: 50 },
        render_command_pool: RenderCommandPool { capacity: 10, used: 0 },
        input_event_pool: InputEventPool { capacity: 10, used: 0 },
    };
    assert_eq!(pools.entity_pool_available(), 60);
    assert_eq!(pools.transform_pool_available(), 0);
    assert!(pools.has_sufficient_capacity(60, 0, 10, 10));
    assert!(!pools.has_sufficient_capacity(61, 0, 0, 0));
    assert!(!pools.has_sufficient_capacity(0, 1, 0, 0));
}
