use mindland::thermal::QualitySettings;
use mindland::thermal::ShadowQuality;
use mindland::thermal::TextureQuality;
use mindland::thermal::ThermalMonitor;
use mindland::thermal::ThermalState;

fn classify(temp_tenths: i32) -> ThermalState {
    let mut monitor = ThermalMonitor::new();
    let gpu = monitor.gpu_temp_tenths;
    let fan = monitor.fan_speed;
    monitor.set_sample(temp_tenths, gpu, fan);
    monitor.update_thermal_state();
    monitor.thermal_state
}

#[test]
fn classification_boundaries_fall_on_exact_tenths() {
    // 59.9 C -> Cool, 60.0 C -> Warm, 74.9 C -> Warm, 75.0 C -> Hot,
    // 84.9 C -> Hot, 85.0 C -> Critical.
    assert_eq!(classify(599), ThermalState::Cool);
    assert_eq!(classify(600), ThermalState::Warm);
    assert_eq!(classify(749), ThermalState::Warm);
    assert_eq!(classify(750), ThermalState::Hot);
    assert_eq!(classify(849), ThermalState::Hot);
    assert_eq!(classify(850), ThermalState::Critical);
}

#[test]
fn classification_covers_extremes() {
    assert_eq!(classify(i32::MIN), ThermalState::Cool);
    assert_eq!(classify(-400), ThermalState::Cool);
    assert_eq!(classify(0), ThermalState::Cool);
    assert_eq!(classify(i32::MAX), ThermalState::Critical);
}

#[test]
fn classification_is_monotone_in_temperature() {
    fn rank(s: ThermalState) -> u32 {
        match s {
            ThermalState::Cool => 0,
            ThermalState::Warm => 1,
            ThermalState::Hot => 2,
            ThermalState::Critical => 3,
        }
    }
    let samples = [-100, 0, 599, 600, 700, 749, 750, 800, 849, 850, 1200];
    for pair in samples.windows(2) {
        assert!(rank(classify(pair[0])) <= rank(classify(pair[1])));
    }
}

#[test]
fn fresh_monitor_starts_cool_and_quiet() {
    let monitor = ThermalMonitor::new();
    assert_eq!(monitor.cpu_temp_tenths, 450);
    assert_eq!(monitor.gpu_temp_tenths, 400);
    assert_eq!(monitor.fan_speed, 1200);
    assert!(!monitor.throttling_active);
    assert_eq!(monitor.thermal_state, ThermalState::Cool);
}

#[test]
fn thermal_protection_degrades_every_knob_one_way() {
    let mut settings = QualitySettings::macbook_pro_2014_preset();
    assert_eq!(settings.render_distance_tenths, 1280);
    assert_eq!(settings.texture_quality, TextureQuality::Medium);
    assert_eq!(settings.shadow_quality, ShadowQuality::Low);
    assert_eq!(settings.particle_density_permille, 700);
    assert_eq!(settings.update_frequency, 60);
    assert!(settings.vsync_enabled);

    settings.apply_thermal_protection();

    // 128.0 * 0.8 = 102.4 units and 0.7 * 0.5 = 0.35 density.
    assert_eq!(settings.render_distance_tenths, 1024);
    assert_eq!(settings.texture_quality, TextureQuality::Low);
    assert_eq!(settings.shadow_quality, ShadowQuality::Off);
    assert_eq!(settings.particle_density_permille, 350);
    assert_eq!(settings.update_frequency, 30);
    assert!(settings.vsync_enabled);

    settings.apply_thermal_protection();
    assert_eq!(settings.render_distance_tenths, 819);
    assert_eq!(settings.particle_density_permille, 175);
    assert_eq!(settings.texture_quality, TextureQuality::Low);
}
