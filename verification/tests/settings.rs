use avd_health_monitor::settings::{
    default_alert_cooldown, default_alert_threshold, default_custom_category,
    default_graph_time_range, default_mode, default_port, default_retention_days,
    default_test_interval, default_theme, default_true, default_version, AppConfig, AppMode,
    LatencyThresholds, SettingsFile,
};

#[test]
fn test_default_settings() {
    let settings = SettingsFile::default();
    assert_eq!(settings.version, 1);
    assert_eq!(settings.config.mode, AppMode::SessionHost);
    assert_eq!(settings.config.test_interval, 10);
    assert_eq!(settings.config.alert_threshold, 3);
}

#[test]
fn default_settings_hold_no_endpoints_and_no_states() {
    let settings = SettingsFile::default();
    assert!(settings.custom_endpoints.is_empty());
    assert!(settings.fslogix_path_states.is_empty());
}

#[test]
fn default_configuration() {
    let config = AppConfig::default();
    assert_eq!(config.mode, AppMode::SessionHost);
    assert_eq!(config.test_interval, 10);
    assert_eq!(config.retention_days, 30);
    assert_eq!(config.thresholds, LatencyThresholds { excellent: 30, good: 80, warning: 150 });
    assert!(config.notifications_enabled);
    assert!(!config.auto_start);
    assert_eq!(config.theme, "system");
    assert_eq!(config.alert_threshold, 3);
    assert_eq!(config.alert_cooldown, 5);
    assert_eq!(config.graph_time_range, 1);
    assert_eq!(AppMode::default(), AppMode::SessionHost);
    assert_eq!(LatencyThresholds::default(), config.thresholds);
}

#[test]
fn defaults_of_single_fields_agree_with_the_default_documents() {
    let config = AppConfig::default();
    assert!(default_true());
    assert_eq!(default_port(), Some(443));
    assert_eq!(default_mode(), config.mode);
    assert_eq!(default_test_interval(), config.test_interval);
    assert_eq!(default_retention_days(), config.retention_days);
    assert_eq!(default_theme(), config.theme);
    assert_eq!(default_alert_threshold(), config.alert_threshold);
    assert_eq!(default_alert_cooldown(), config.alert_cooldown);
    assert_eq!(default_graph_time_range(), config.graph_time_range);
    assert_eq!(default_custom_category(), Some("Custom".to_string()));
    assert_eq!(default_version(), SettingsFile::default().version);
}

#[test]
fn mode_names() {
    assert_eq!(AppMode::EndUser.as_str(), "enduser");
    assert_eq!(AppMode::SessionHost.as_str(), "sessionhost");
    assert_eq!(AppMode::from_name("enduser"), AppMode::EndUser);
    assert_eq!(AppMode::from_name("sessionhost"), AppMode::SessionHost);
    assert_eq!(AppMode::from_name("EndUser"), AppMode::SessionHost);
    assert_eq!(AppMode::from_name(""), AppMode::SessionHost);
    for mode in [AppMode::SessionHost, AppMode::EndUser] {
        assert_eq!(AppMode::from_name(mode.as_str()), mode);
    }
}

#[test]
fn clones_are_equal() {
    let mut settings = SettingsFile::default();
    settings.config.theme = "dark".to_string();
    assert_eq!(settings.clone(), settings);
}

#[test]
fn test_app_mode_serialization() {
    let mode = AppMode::EndUser;
    let json = serde_json::to_string(mode.as_str()).unwrap();
    assert_eq!(json, "\"enduser\"");

    let mode = AppMode::SessionHost;
    let json = serde_json::to_string(mode.as_str()).unwrap();
    assert_eq!(json, "\"sessionhost\"");
}
