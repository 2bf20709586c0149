//! Engine configuration presets for different hardware tiers.

use vstd::prelude::*;

verus! {

/// Performance mode presets for different use cases.
#[derive(Debug, Clone, Copy, PartialEq, Eq, Structural)]
pub enum PerformanceMode {
    /// Maximum performance, minimal quality.
    UltraPerformance,
    /// Balanced performance and quality, the default.
    Balanced,
    /// Maximum quality, performance as needed.
    Quality,
    /// Tuned for a thermally constrained mid-2014 laptop.
    MacBookPro2014,
    /// Emergency mode for thermal throttling situations.
    Emergency,
}

/// Hardware tier classification for automatic optimization.
#[derive(Debug, Clone, Copy, PartialEq, Eq, Structural)]
pub enum HardwareTier {
    Low,
    Medium,
    High,
    UltraHigh,
}

/// The position of a tier in the low-to-high order.
pub open spec fn tier_rank(t: HardwareTier) -> int {
    match t {
        HardwareTier::Low => 0,
        HardwareTier::Medium => 1,
        HardwareTier::High => 2,
        HardwareTier::UltraHigh => 3,
    }
}

impl HardwareTier {
    /// Whether this tier is at least as capable as `other`.
    pub fn at_least(&self, other: HardwareTier) -> (r: bool)
        ensures
            r == (tier_rank(*self) >= tier_rank(other)),
    {
        let own: u32 = match *self {
            HardwareTier::Low => 0,
            HardwareTier::Medium => 1,
            HardwareTier::High => 2,
            HardwareTier::UltraHigh => 3,
        };
        let them: u32 = match other {
            HardwareTier::Low => 0,
            HardwareTier::Medium => 1,
            HardwareTier::High => 2,
            HardwareTier::UltraHigh => 3,
        };
        own >= them
    }
}

/// Engine configuration consumed by the governor.
#[derive(Debug, Clone, Copy, PartialEq, Eq, Structural)]
pub struct EngineConfig {
    pub target_fps: u32,
    pub enable_vsync: bool,
    pub performance_mode: PerformanceMode,
    pub hardware_tier: HardwareTier,
    pub enable_performance_monitoring: bool,
    pub memory_pool_size: usize,
    pub max_entities: u32,
}

/// A usable configuration: the target rate and the pool sizes are positive.
pub open spec fn config_wf(c: EngineConfig) -> bool {
    &&& c.target_fps >= 1
    &&& c.max_entities >= 1
}

impl Default for EngineConfig {
    /// The balanced default: 60 FPS with vsync on a medium tier, a 64 MiB
    /// pool and up to 100000 entities.
    fn default() -> (r: EngineConfig)
        ensures
            r.target_fps == 60,
            r.enable_vsync,
            r.performance_mode is Balanced,
            r.hardware_tier is Medium,
            r.enable_performance_monitoring,
            r.memory_pool_size == 1024 * 1024 * 64,
            r.max_entities == 100_000,
            config_wf(r),
    {
        EngineConfig {
            target_fps: 60,
            enable_vsync: true,
            performance_mode: PerformanceMode::Balanced,
            hardware_tier: HardwareTier::Medium,
            enable_performance_monitoring: true,
            memory_pool_size: 1024 * 1024 * 64,
            max_entities: 100_000,
        }
    }
}

impl EngineConfig {
    /// The preset for a thermally constrained mid-2014 laptop: 60 FPS with
    /// vsync, a halved 32 MiB pool and 50000 entities for thermal headroom.
    pub fn macbook_pro_2014() -> (r: EngineConfig)
        ensures
            r.target_fps == 60,
            r.enable_vsync,
            r.performance_mode is MacBookPro2014,
            r.hardware_tier is Medium,
            r.enable_performance_monitoring,
            r.memory_pool_size == 1024 * 1024 * 32,
            r.max_entities == 50_000,
            config_wf(r),
    {
        EngineConfig {
            target_fps: 60,
            enable_vsync: true,
            performance_mode: PerformanceMode::MacBookPro2014,
            hardware_tier: HardwareTier::Medium,
            enable_performance_monitoring: true,
            memory_pool_size: 1024 * 1024 * 32,
            max_entities: 50_000,
        }
    }

    /// The competitive preset: 144 FPS without vsync on a high tier, a
    /// 128 MiB pool and 200000 entities.
    pub fn ultra_performance() -> (r: EngineConfig)
        ensures
            r.target_fps == 144,
            !r.enable_vsync,
            r.performance_mode is UltraPerformance,
            r.hardware_tier is High,
            r.enable_performance_monitoring,
            r.memory_pool_size == 1024 * 1024 * 128,
            r.max_entities == 200_000,
            config_wf(r),
    {
        EngineConfig {
            target_fps: 144,
            enable_vsync: false,
            performance_mode: PerformanceMode::UltraPerformance,
            hardware_tier: HardwareTier::High,
            enable_performance_monitoring: true,
            memory_pool_size: 1024 * 1024 * 128,
            max_entities: 200_000,
        }
    }

    /// Picks the configuration for the detected hardware: the laptop preset
    /// when a mid-2014 laptop was detected, the ultra preset on a high or
    /// better tier, and the balanced default otherwise.
    pub fn for_hardware(is_macbook_pro_2014: bool, tier: HardwareTier) -> (r: EngineConfig)
        ensures
            is_macbook_pro_2014 ==> r.performance_mode is MacBookPro2014 && r.target_fps == 60
                && r.max_entities == 50_000,
            !is_macbook_pro_2014 && tier_rank(tier) >= tier_rank(HardwareTier::High)
                ==> r.performance_mode is UltraPerformance && r.target_fps == 144
                && r.max_entities == 200_000,
            !is_macbook_pro_2014 && tier_rank(tier) < tier_rank(HardwareTier::High)
                ==> r.performance_mode is Balanced && r.target_fps == 60 && r.max_entities
                == 100_000,
            config_wf(r),
    {
        if is_macbook_pro_2014 {
            EngineConfig::macbook_pro_2014()
        } else if tier.at_least(HardwareTier::High) {
            EngineConfig::ultra_performance()
        } else {
            EngineConfig::default()
        }
    }
}

} // verus!
