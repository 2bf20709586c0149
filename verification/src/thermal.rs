//! Thermal classification and quality degradation.
//!
//! Temperatures are carried as tenths of a degree Celsius, so the boundaries
//! of the four thermal states fall on exact integers: below 60.0 C is cool,
//! 60.0 C up to but excluding 75.0 C is warm, 75.0 C up to but excluding
//! 85.0 C is hot, and 85.0 C or more is critical. Classification is a pure
//! function of the current CPU temperature, recomputed from scratch on every
//! evaluation; there is no hysteresis, a deliberate simplicity trade-off, so
//! a temperature oscillating exactly at a boundary flips state every
//! evaluation.

use vstd::prelude::*;
use crate::config::HardwareTier;

verus! {

/// Temperature boundary between cool and warm, in tenths of a degree.
pub const WARM_THRESHOLD_TENTHS: i32 = 600;

/// Temperature boundary between warm and hot, in tenths of a degree.
pub const HOT_THRESHOLD_TENTHS: i32 = 750;

/// Temperature boundary between hot and critical, in tenths of a degree.
pub const CRITICAL_THRESHOLD_TENTHS: i32 = 850;

/// Discrete classification of the current temperature.
#[derive(Debug, Clone, Copy, PartialEq, Eq, Structural)]
pub enum ThermalState {
    Cool,
    Warm,
    Hot,
    Critical,
}

/// The thermal state assigned to a temperature, in tenths of a degree.
pub open spec fn classify_temperature_spec(temp_tenths: int) -> ThermalState {
    if temp_tenths < WARM_THRESHOLD_TENTHS {
        ThermalState::Cool
    } else if temp_tenths < HOT_THRESHOLD_TENTHS {
        ThermalState::Warm
    } else if temp_tenths < CRITICAL_THRESHOLD_TENTHS {
        ThermalState::Hot
    } else {
        ThermalState::Critical
    }
}

/// The position of a state in the cool-to-critical order.
pub open spec fn thermal_rank(s: ThermalState) -> int {
    match s {
        ThermalState::Cool => 0,
        ThermalState::Warm => 1,
        ThermalState::Hot => 2,
        ThermalState::Critical => 3,
    }
}

/// Thermal classification totality: the four states partition the whole
/// temperature axis, each state holding exactly on its own half-open
/// interval, so every temperature is assigned exactly one state.
pub proof fn lemma_thermal_classification_total(temp_tenths: int)
    ensures
        classify_temperature_spec(temp_tenths) is Cool <==> temp_tenths < WARM_THRESHOLD_TENTHS,
        classify_temperature_spec(temp_tenths) is Warm <==> WARM_THRESHOLD_TENTHS <= temp_tenths
            < HOT_THRESHOLD_TENTHS,
        classify_temperature_spec(temp_tenths) is Hot <==> HOT_THRESHOLD_TENTHS <= temp_tenths
            < CRITICAL_THRESHOLD_TENTHS,
        classify_temperature_spec(temp_tenths) is Critical <==> CRITICAL_THRESHOLD_TENTHS
            <= temp_tenths,
{
}

/// Thermal classification monotonicity: a higher temperature is never
/// assigned a cooler state.
pub proof fn lemma_thermal_classification_monotonic(t1: int, t2: int)
    requires
        t1 <= t2,
    ensures
        thermal_rank(classify_temperature_spec(t1)) <= thermal_rank(classify_temperature_spec(t2)),
{
}

/// Thermal telemetry and the derived state, for hardware protection.
/// Temperatures are in tenths of a degree Celsius; the fan speed is in RPM.
pub struct ThermalMonitor {
    pub cpu_temp_tenths: i32,
    pub gpu_temp_tenths: i32,
    pub fan_speed: u32,
    pub throttling_active: bool,
    pub thermal_state: ThermalState,
}

/// The stored state agrees with the classification of the stored CPU
/// temperature.
pub open spec fn thermal_state_current(m: ThermalMonitor) -> bool {
    m.thermal_state == classify_temperature_spec(m.cpu_temp_tenths as int)
}

impl ThermalMonitor {
    /// A fresh monitor with a cool default temperature and a quiet default
    /// fan speed.
    pub fn new() -> (r: ThermalMonitor)
        ensures
            r.cpu_temp_tenths == 450,
            r.gpu_temp_tenths == 400,
            r.fan_speed == 1200,
            !r.throttling_active,
            r.thermal_state is Cool,
            thermal_state_current(r),
    {
        ThermalMonitor {
            cpu_temp_tenths: 450,
            gpu_temp_tenths: 400,
            fan_speed: 1200,
            throttling_active: false,
            thermal_state: ThermalState::Cool,
        }
    }

    /// Stores a telemetry sample supplied by the hardware collaborator. The
    /// derived state is not touched until `update_thermal_state` runs.
    pub fn set_sample(&mut self, cpu_temp_tenths: i32, gpu_temp_tenths: i32, fan_speed: u32)
        ensures
            final(self).cpu_temp_tenths == cpu_temp_tenths,
            final(self).gpu_temp_tenths == gpu_temp_tenths,
            final(self).fan_speed == fan_speed,
            final(self).throttling_active == old(self).throttling_active,
            final(self).thermal_state == old(self).thermal_state,
    {
        self.cpu_temp_tenths = cpu_temp_tenths;
        self.gpu_temp_tenths = gpu_temp_tenths;
        self.fan_speed = fan_speed;
    }

    /// Rederives the thermal state from the current CPU temperature.
    pub fn update_thermal_state(&mut self)
        ensures
            final(self).thermal_state == classify_temperature_spec(
                old(self).cpu_temp_tenths as int,
            ),
            thermal_state_current(*final(self)),
            final(self).cpu_temp_tenths == old(self).cpu_temp_tenths,
            final(self).gpu_temp_tenths == old(self).gpu_temp_tenths,
            final(self).fan_speed == old(self).fan_speed,
            final(self).throttling_active == old(self).throttling_active,
    {
        self.thermal_state = if self.cpu_temp_tenths < WARM_THRESHOLD_TENTHS {
            ThermalState::Cool
        } else if self.cpu_temp_tenths < HOT_THRESHOLD_TENTHS {
            ThermalState::Warm
        } else if self.cpu_temp_tenths < CRITICAL_THRESHOLD_TENTHS {
            ThermalState::Hot
        } else {
            ThermalState::Critical
        };
    }
}

/// Texture quality levels.
#[derive(Debug, Clone, Copy, PartialEq, Eq, Structural)]
pub enum TextureQuality {
    Low,
    Medium,
    High,
    Ultra,
}

/// Shadow quality levels.
#[derive(Debug, Clone, Copy, PartialEq, Eq, Structural)]
pub enum ShadowQuality {
    Off,
    Low,
    Medium,
    High,
    Ultra,
}

/// How quickly the optimizer adapts quality to measured pressure.
#[derive(Debug, Clone, Copy, PartialEq, Eq, Structural)]
pub enum AdaptationStrategy {
    Conservative,
    Aggressive,
    Emergency,
}

/// Rendering quality knobs mutated by the thermal protection path. The
/// render distance is in tenths of a world unit and the particle density in
/// thousandths of full density.
#[derive(Debug, Clone, Copy, PartialEq, Eq, Structural)]
pub struct QualitySettings {
    pub render_distance_tenths: u32,
    pub texture_quality: TextureQuality,
    pub shadow_quality: ShadowQuality,
    pub particle_density_permille: u32,
    pub update_frequency: u32,
    pub vsync_enabled: bool,
}

impl QualitySettings {
    /// The preset tuned for a thermally constrained mid-2014 laptop:
    /// a 128.0 unit render distance, medium textures, low shadows, 0.7
    /// particle density, 60 Hz updates and vsync on.
    pub fn macbook_pro_2014_preset() -> (r: QualitySettings)
        ensures
            r.render_distance_tenths == 1280,
            r.texture_quality is Medium,
            r.shadow_quality is Low,
            r.particle_density_permille == 700,
            r.update_frequency == 60,
            r.vsync_enabled,
    {
        QualitySettings {
            render_distance_tenths: 1280,
            texture_quality: TextureQuality::Medium,
            shadow_quality: ShadowQuality::Low,
            particle_density_permille: 700,
            update_frequency: 60,
            vsync_enabled: true,
        }
    }

    /// The one-way degrade step taken under thermal pressure: the render
    /// distance is scaled by four fifths and the particle density halved
    /// (both rounding down), textures are forced low, shadows off, and the
    /// update frequency forced to 30 Hz. There is no inverse: recovery when
    /// pressure subsides is deliberately left to the embedding application.
    pub fn apply_thermal_protection(&mut self)
        ensures
            final(self).render_distance_tenths == old(self).render_distance_tenths * 4 / 5,
            final(self).texture_quality is Low,
            final(self).shadow_quality is Off,
            final(self).particle_density_permille == old(self).particle_density_permille / 2,
            final(self).update_frequency == 30,
            final(self).vsync_enabled == old(self).vsync_enabled,
    {
        let distance: u64 = self.render_distance_tenths as u64;
        let scaled: u64 = distance * 4 / 5;
        assert(scaled <= u32::MAX) by (nonlinear_arith)
            requires
                scaled == distance * 4 / 5,
                distance <= u32::MAX,
        ;
        self.render_distance_tenths = scaled as u32;
        self.texture_quality = TextureQuality::Low;
        self.shadow_quality = ShadowQuality::Off;
        self.particle_density_permille = self.particle_density_permille / 2;
        self.update_frequency = 30;
    }
}

/// What hardware detection reported, for automatic optimization.
pub struct HardwareDetector {
    pub cpu_model: String,
    pub gpu_model: String,
    pub total_memory: u64,
    pub hardware_tier: HardwareTier,
    pub is_macbook_pro_2014: bool,
}

/// The automatic optimizer's state: what was detected, the quality knobs it
/// mutates, and how aggressively it adapts.
pub struct AutoOptimizer {
    pub hardware_detector: HardwareDetector,
    pub quality_settings: QualitySettings,
    pub adaptation_strategy: AdaptationStrategy,
}

} // verus!
