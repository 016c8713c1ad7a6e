use avd_health_monitor::autostart::{
    disable_autostart, enable_autostart, is_autostart_enabled, set_autostart, RegistryChange,
    RegistryLookup,
};
use avd_health_monitor::paths::Platform;

#[test]
fn test_autostart_check() {
    // Just test that the function doesn't panic
    let _ = is_autostart_enabled(Platform::Linux, None);
    assert_eq!(is_autostart_enabled(Platform::Linux, None), Ok(false));
    assert_eq!(is_autostart_enabled(Platform::MacOs, Some(RegistryLookup::Found)), Ok(false));
}

#[test]
fn autostart_is_only_supported_on_windows() {
    for platform in [Platform::MacOs, Platform::Linux, Platform::Other] {
        assert_eq!(
            enable_autostart(platform, "/opt/avd/avd"),
            Err("Auto-start is only supported on Windows".to_string())
        );
        assert_eq!(
            disable_autostart(platform),
            Err("Auto-start is only supported on Windows".to_string())
        );
        assert!(set_autostart(platform, true, "/opt/avd/avd").is_err());
    }
}

#[test]
fn autostart_changes_the_run_key() {
    assert_eq!(
        enable_autostart(Platform::Windows, "C:\\avd\\avd.exe"),
        Ok(RegistryChange::SetValue("C:\\avd\\avd.exe".to_string()))
    );
    assert_eq!(disable_autostart(Platform::Windows), Ok(RegistryChange::DeleteValue));
    assert_eq!(
        set_autostart(Platform::Windows, true, "C:\\avd\\avd.exe"),
        Ok(RegistryChange::SetValue("C:\\avd\\avd.exe".to_string()))
    );
    assert_eq!(
        set_autostart(Platform::Windows, false, "C:\\avd\\avd.exe"),
        Ok(RegistryChange::DeleteValue)
    );
}

#[test]
fn autostart_state_of_a_lookup() {
    assert_eq!(is_autostart_enabled(Platform::Windows, Some(RegistryLookup::Found)), Ok(true));
    assert_eq!(is_autostart_enabled(Platform::Windows, Some(RegistryLookup::NotFound)), Ok(false));
    assert_eq!(is_autostart_enabled(Platform::Windows, None), Ok(false));
    assert_eq!(
        is_autostart_enabled(
            Platform::Windows,
            Some(RegistryLookup::KeyUnavailable("denied".to_string()))
        ),
        Err("Failed to open registry key: denied".to_string())
    );
    assert_eq!(
        is_autostart_enabled(
            Platform::Windows,
            Some(RegistryLookup::Unreadable("wrong type".to_string()))
        ),
        Err("Failed to read registry value: wrong type".to_string())
    );
}
