use mindland::config::EngineConfig;
use mindland::config::HardwareTier;
use mindland::config::PerformanceMode;
use std::time::Duration;
use std::time::Instant;

#[test]
fn test_engine_configuration_creation_performance() {
    let start_time = Instant::now();

    let configs = vec![
        EngineConfig::default(),
        EngineConfig::macbook_pro_2014(),
        EngineConfig::ultra_performance(),
    ];

    let creation_time = start_time.elapsed();

    assert!(
        creation_time <= Duration::from_millis(1),
        "Configuration creation took {:.2}ms, should be nearly instantaneous",
        creation_time.as_secs_f64() * 1000.0
    );

    assert_eq!(configs[0].performance_mode, PerformanceMode::Balanced);
    assert_eq!(configs[1].performance_mode, PerformanceMode::MacBookPro2014);
    assert_eq!(configs[2].performance_mode, PerformanceMode::UltraPerformance);

    assert_eq!(configs[1].memory_pool_size, 1024 * 1024 * 32);
    assert_eq!(configs[1].max_entities, 50_000);

    assert_eq!(configs[2].target_fps, 144);
    assert_eq!(configs[2].memory_pool_size, 1024 * 1024 * 128);
    assert_eq!(configs[2].max_entities, 200_000);
}

#[test]
fn hardware_detection_picks_the_matching_preset() {
    let laptop = EngineConfig::for_hardware(true, HardwareTier::UltraHigh);
    assert_eq!(laptop.performance_mode, PerformanceMode::MacBookPro2014);
    assert_eq!(laptop.max_entities, 50_000);

    let high = EngineConfig::for_hardware(false, HardwareTier::High);
    assert_eq!(high.performance_mode, PerformanceMode::UltraPerformance);
    assert_eq!(high.target_fps, 144);

    let ultra = EngineConfig::for_hardware(false, HardwareTier::UltraHigh);
    assert_eq!(ultra.performance_mode, PerformanceMode::UltraPerformance);

    let medium = EngineConfig::for_hardware(false, HardwareTier::Medium);
    assert_eq!(medium.performance_mode, PerformanceMode::Balanced);
    assert_eq!(medium.target_fps, 60);
    assert_eq!(medium.max_entities, 100_000);

    let low = EngineConfig::for_hardware(false, HardwareTier::Low);
    assert_eq!(low.performance_mode, PerformanceMode::Balanced);
}

#[test]
fn tier_order_is_low_to_ultra_high() {
    assert!(HardwareTier::UltraHigh.at_least(HardwareTier::High));
    assert!(HardwareTier::High.at_least(HardwareTier::High));
    assert!(!HardwareTier::Medium.at_least(HardwareTier::High));
    assert!(!HardwareTier::Low.at_least(HardwareTier::Medium));
    assert!(HardwareTier::Low.at_least(HardwareTier::Low));
}
