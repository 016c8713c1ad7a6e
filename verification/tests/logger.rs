use avd_health_monitor::error::SettingsError;
use avd_health_monitor::logger::{get_log_directory, is_expired_log, LogEntry, Logger};
use avd_health_monitor::paths::Platform;
use std::path::Path;

#[test]
fn log_file_is_named_after_the_day() {
    let day = chrono::NaiveDate::from_ymd_opt(2024, 3, 9).unwrap();
    let logger = Logger::new("/var/log/avd", &day, 30);
    let expected = Path::new("/var/log/avd").join("avd_latency_2024-03-09.log");
    assert_eq!(logger.get_log_path(), &expected.to_string_lossy().into_owned());
    assert_eq!(logger.retention_days(), 30);
}

#[test]
fn log_directory_lies_below_the_settings_directory() {
    let expected = Path::new("/home/u").join(".config").join("avd-health-monitor").join("logs");
    assert_eq!(
        get_log_directory(Platform::Linux, Some("/home/u")),
        Ok(expected.to_string_lossy().into_owned())
    );
    let expected = Path::new("/appdata").join("AVDHealthMonitor").join("logs");
    assert_eq!(
        get_log_directory(Platform::Windows, Some("/appdata")),
        Ok(expected.to_string_lossy().into_owned())
    );
    assert_eq!(
        get_log_directory(Platform::Linux, None),
        Err(SettingsError::NotFound("environment variable not found".to_string()))
    );
}

fn entry(is_file: bool, extension: Option<&str>, before: Option<bool>) -> LogEntry {
    LogEntry {
        is_file,
        extension: extension.map(|e| e.to_string()),
        modified_before_cutoff: before,
    }
}

#[test]
fn only_old_log_files_are_removed() {
    assert!(is_expired_log(&entry(true, Some("log"), Some(true))));
    assert!(!is_expired_log(&entry(true, Some("log"), Some(false))));
    assert!(!is_expired_log(&entry(true, Some("log"), None)));
    assert!(!is_expired_log(&entry(false, Some("log"), Some(true))));
    assert!(!is_expired_log(&entry(true, Some("txt"), Some(true))));
    assert!(!is_expired_log(&entry(true, Some("LOG"), Some(true))));
    assert!(!is_expired_log(&entry(true, None, Some(true))));
}

#[test]
fn test_logger_creation() {
    let day = chrono::NaiveDate::from_ymd_opt(2024, 3, 9).unwrap();
    let logger = Logger::new("/tmp/avd-health-monitor/logs", &day, 30);
    assert_eq!(logger.retention_days(), 30);
    assert!(logger.get_log_path().ends_with("avd_latency_2024-03-09.log"));
}
