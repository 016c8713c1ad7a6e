use avd_health_monitor::error::SettingsError;
use avd_health_monitor::paths::{
    config_root_variable, endpoint_filename, get_appdata_settings_dir, get_endpoint_file_path,
    get_exe_dir, get_settings_dir, get_settings_path, has_install_marker, is_portable,
    portability, Platform, Portability,
};
use avd_health_monitor::settings::AppMode;
use std::path::Path;

fn joined(base: &str, names: &[&str]) -> String {
    let mut path = Path::new(base).to_path_buf();
    for name in names {
        path = path.join(name);
    }
    path.to_string_lossy().into_owned()
}

#[test]
fn settings_path_lies_in_the_settings_directory() {
    assert_eq!(get_settings_path("/home/u/.config/avd"), joined("/home/u/.config/avd", &["settings.json"]));
    assert_ne!(get_settings_path("/home/u"), "/home/u");
    assert!(get_settings_path("/home/u").ends_with("settings.json"));
}

#[test]
fn each_mode_has_its_catalog_file() {
    assert_eq!(endpoint_filename(&AppMode::SessionHost), "sessionhost-endpoints.json");
    assert_eq!(endpoint_filename(&AppMode::EndUser), "enduser-endpoints.json");
    assert_eq!(
        get_endpoint_file_path(&AppMode::SessionHost, "/data"),
        joined("/data", &["sessionhost-endpoints.json"])
    );
    assert_eq!(
        get_endpoint_file_path(&AppMode::EndUser, "/data"),
        joined("/data", &["enduser-endpoints.json"])
    );
}

#[test]
fn install_marker_is_found_in_any_case() {
    assert!(has_install_marker("C:\\Program Files\\AVD Health Monitor"));
    assert!(has_install_marker("c:\\PROGRAM FILES (x86)\\avd"));
    assert!(has_install_marker("program files"));
    assert!(!has_install_marker("C:\\Tools\\avd"));
    assert!(!has_install_marker("C:\\ProgramFiles\\avd"));
    assert!(!has_install_marker(""));
}

#[test]
fn portability_is_decided_in_stages() {
    assert_eq!(portability("/opt/avd", true), Portability::Portable);
    assert_eq!(portability("/opt/Program Files/avd", true), Portability::Portable);
    assert_eq!(portability("/opt/Program Files/avd", false), Portability::Installed);
    assert_eq!(
        portability("/opt/avd", false),
        Portability::Probe(joined("/opt/avd", &[".portable_test"]))
    );
}

#[test]
fn portable_copy() {
    assert!(is_portable(Some("/opt/avd"), true, false));
    assert!(is_portable(Some("/opt/avd"), false, true));
    assert!(!is_portable(Some("/opt/avd"), false, false));
    assert!(is_portable(Some("/opt/Program Files/avd"), true, true));
    assert!(!is_portable(Some("/opt/Program Files/avd"), false, true));
    assert!(!is_portable(None, true, true));
}

#[test]
fn settings_directory_of_a_portable_copy_is_the_directory_of_the_executable() {
    assert_eq!(
        get_settings_dir(true, Some("/opt/avd".to_string()), Platform::Linux, Some("/home/u")),
        Ok("/opt/avd".to_string())
    );
    assert_eq!(
        get_settings_dir(true, None, Platform::Linux, Some("/home/u")),
        Err(SettingsError::NotFound("Could not find exe directory".to_string()))
    );
    assert_eq!(get_exe_dir(Some("/x".to_string())), Ok("/x".to_string()));
}

#[test]
fn settings_directory_of_an_installed_copy_lies_under_the_configuration_root() {
    assert_eq!(
        get_settings_dir(false, Some("/opt/avd".to_string()), Platform::Linux, Some("/home/u")),
        Ok(joined("/home/u", &[".config", "avd-health-monitor"]))
    );
    assert_eq!(
        get_settings_dir(false, None, Platform::MacOs, Some("/Users/u")),
        Ok(joined("/Users/u", &[".config", "avd-health-monitor"]))
    );
    assert_eq!(
        get_settings_dir(false, None, Platform::Windows, Some("/appdata")),
        Ok(joined("/appdata", &["AVDHealthMonitor"]))
    );
    assert_eq!(
        get_settings_dir(false, Some("/opt/avd".to_string()), Platform::Linux, None),
        Err(SettingsError::NotFound("environment variable not found".to_string()))
    );
    assert_eq!(
        get_appdata_settings_dir(Platform::Other, Some("/home/u")),
        Ok(joined("/home/u", &[".config", "avd-health-monitor"]))
    );
}

#[test]
fn configuration_root_variables() {
    assert_eq!(config_root_variable(Platform::Windows), "APPDATA");
    assert_eq!(config_root_variable(Platform::Linux), "HOME");
    assert_eq!(config_root_variable(Platform::MacOs), "HOME");
    assert_eq!(config_root_variable(Platform::Other), "HOME");
}

#[test]
fn error_texts() {
    let e = SettingsError::Parse("expected value at line 1".to_string());
    assert_eq!(e.message(), "expected value at line 1");
    assert_eq!(SettingsError::NotFound("gone".to_string()).message(), "gone");
    assert_eq!(SettingsError::Io("denied".to_string()).message(), "denied");
}
