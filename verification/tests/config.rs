use status_bar::config::{
    AppConfig, ConfigError, ConfigStore, FloatingBarConfig, FontConfig, FontPreset, LoadPlan,
    SpeedUnit, ThemeMode, DEFAULT_OPACITY, MAX_OPACITY, MIN_OPACITY,
};
use status_bar::float_bits::F32Bits;

fn opacity(config: &AppConfig) -> f32 {
    f32::from_bits(config.floating_bar.opacity.0)
}

#[test]
fn sanitizes_unsafe_values() {
    let mut config = AppConfig::default();
    config.refresh_interval_ms = 50;
    config.font.custom_px = 4;
    config.floating_bar.opacity = F32Bits(4.0f32.to_bits());

    let config = config.sanitized();

    assert_eq!(config.refresh_interval_ms, 1_000);
    assert_eq!(config.font.custom_px, 12);
    assert_eq!(opacity(&config), 1.0);
}

#[test]
fn opacity_constants_are_the_documented_values() {
    assert_eq!(DEFAULT_OPACITY, 0.92f32.to_bits());
    assert_eq!(MIN_OPACITY, 0.35f32.to_bits());
    assert_eq!(MAX_OPACITY, 1.0f32.to_bits());
}

#[test]
fn default_config_has_the_documented_values() {
    let config = AppConfig::default();
    assert_eq!(config.version, 1);
    assert!(!config.autostart);
    assert_eq!(config.refresh_interval_ms, 1_000);
    assert_eq!(config.font.preset, FontPreset::Small);
    assert_eq!(config.font.custom_px, 12);
    assert_eq!(config.speed_unit, SpeedUnit::Auto);
    assert_eq!(config.theme, ThemeMode::System);
    assert!(config.show_na);
    let bar = FloatingBarConfig::default();
    assert!(!bar.enabled);
    assert_eq!(f32::from_bits(bar.opacity.0), 0.92);
    assert!(bar.always_on_top);
    assert!(!bar.lock_position);
    assert!(!bar.click_through);
    assert!(bar.x.is_none() && bar.y.is_none());
    assert_eq!(FontPreset::default(), FontPreset::Small);
    assert_eq!(ThemeMode::default(), ThemeMode::System);
    assert_eq!(SpeedUnit::default(), SpeedUnit::Auto);
}

#[test]
fn sanitizing_forces_supported_behaviour_and_keeps_choices() {
    let mut config = AppConfig::default();
    config.version = 7;
    config.autostart = true;
    config.refresh_interval_ms = 5_000;
    config.font = FontConfig { preset: FontPreset::Large, custom_px: 200 };
    config.speed_unit = SpeedUnit::Mb;
    config.show_na = false;
    config.theme = ThemeMode::Dark;
    config.floating_bar.enabled = true;
    config.floating_bar.opacity = F32Bits(0.1f32.to_bits());
    let s = config.sanitized();
    assert_eq!(s.version, 1);
    assert!(s.autostart);
    assert_eq!(s.refresh_interval_ms, 1_000);
    assert_eq!(s.font.preset, FontPreset::Small);
    assert_eq!(s.font.custom_px, 28);
    assert_eq!(s.speed_unit, SpeedUnit::Auto);
    assert!(s.show_na);
    assert_eq!(s.theme, ThemeMode::Dark);
    assert!(s.floating_bar.enabled);
    assert_eq!(opacity(&s), 0.35);
}

#[test]
fn sanitizing_twice_changes_nothing_more() {
    let mut config = AppConfig::default();
    config.font.custom_px = 3;
    config.floating_bar.opacity = F32Bits(f32::NAN.to_bits());
    let once = config.sanitized();
    let twice = once.sanitized();
    assert_eq!(once.font, twice.font);
    assert_eq!(once.floating_bar.opacity.0, twice.floating_bar.opacity.0);
    assert!(opacity(&twice).is_nan());
}

#[test]
fn opacity_clamp_matches_float_clamp() {
    let mut x: u32 = 0xdead_beef;
    let mut values: Vec<f32> = vec![
        0.0, -0.0, 0.35, 0.34999, 0.92, 1.0, 1.0001, -1.0, f32::INFINITY, f32::NEG_INFINITY,
        f32::NAN, f32::MIN_POSITIVE, 4.0,
    ];
    for _ in 0..20_000 {
        x ^= x << 13;
        x ^= x >> 17;
        x ^= x << 5;
        values.push(f32::from_bits(x));
        values.push((x % 1_500) as f32 / 1_000.0);
    }
    for v in values {
        let mut config = AppConfig::default();
        config.floating_bar.opacity = F32Bits(v.to_bits());
        let got = config.sanitized().floating_bar.opacity.0;
        assert_eq!(got, v.clamp(0.35, 1.0).to_bits(), "opacity {v}");
    }
}

#[test]
fn effective_px_follows_presets_and_clamps_custom() {
    assert_eq!(FontConfig { preset: FontPreset::Small, custom_px: 20 }.effective_px(), 12);
    assert_eq!(FontConfig { preset: FontPreset::Medium, custom_px: 20 }.effective_px(), 14);
    assert_eq!(FontConfig { preset: FontPreset::Large, custom_px: 20 }.effective_px(), 16);
    assert_eq!(FontConfig { preset: FontPreset::Custom, custom_px: 20 }.effective_px(), 20);
    assert_eq!(FontConfig { preset: FontPreset::Custom, custom_px: 2 }.effective_px(), 12);
    assert_eq!(FontConfig { preset: FontPreset::Custom, custom_px: 250 }.effective_px(), 28);
    assert_eq!(FontConfig::default().effective_px(), 12);
}

#[test]
fn store_keeps_its_path_and_default_location_ends_in_config_json() {
    let path = std::path::PathBuf::from("settings/status-bar-config.json");
    let store = ConfigStore::new(path.clone());
    assert_eq!(store.path(), &path);
    match ConfigStore::default_path() {
        Ok(p) => assert!(p.ends_with("config.json")),
        Err(e) => assert!(matches!(e, ConfigError::MissingConfigDir)),
    }
    match ConfigStore::new_default() {
        Ok(s) => assert!(s.path().ends_with("config.json")),
        Err(e) => assert!(matches!(e, ConfigError::MissingConfigDir)),
    }
}

#[test]
fn missing_directories_give_the_documented_errors() {
    assert!(matches!(ConfigStore::config_file_in(None), Err(ConfigError::MissingConfigDir)));
    assert_eq!(
        status_bar::logger::log_dir_in(None).unwrap_err(),
        "log directory is not available"
    );
    if let Some(dirs) = directories::ProjectDirs::from("com", "Example", "Status Test") {
        let config = ConfigStore::config_file_in(Some(dirs.clone())).unwrap();
        assert_eq!(config, dirs.config_dir().join("config.json"));
        let logs = status_bar::logger::log_dir_in(Some(dirs.clone())).unwrap();
        assert_eq!(logs, dirs.data_local_dir().join("logs"));
    }
}

#[test]
fn log_dir_is_logs_in_local_data() {
    match status_bar::logger::log_dir() {
        Ok(p) => assert!(p.ends_with("logs")),
        Err(e) => assert_eq!(e, "log directory is not available"),
    }
}

#[test]
fn unreadable_files_are_kept_aside_and_replaced_by_defaults() {
    let plan = LoadPlan::for_load(None, true);
    assert!(plan.back_up_file && plan.write_defaults);
    assert_eq!(plan.config.refresh_interval_ms, 1_000);
    assert!(!plan.config.autostart);
    let plan = LoadPlan::for_load(None, false);
    assert!(!plan.back_up_file && plan.write_defaults);
    let mut saved = AppConfig::default();
    saved.autostart = true;
    saved.refresh_interval_ms = 5_000;
    let plan = LoadPlan::for_load(Some(saved), true);
    assert!(!plan.back_up_file && !plan.write_defaults);
    assert!(plan.config.autostart);
    assert_eq!(plan.config.refresh_interval_ms, 1_000);
}
