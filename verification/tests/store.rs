use avd_health_monitor::error::SettingsError;
use avd_health_monitor::settings::{EndpointFile, SettingsFile};
use avd_health_monitor::store::{load_settings, read_endpoint_file, LoadedSettings, Stored};

#[test]
fn missing_settings_are_created_from_defaults() {
    assert_eq!(
        load_settings(Stored::Missing),
        Ok(LoadedSettings { settings: SettingsFile::default(), created: true })
    );
}

#[test]
fn persisted_settings_are_returned_as_they_are() {
    let mut settings = SettingsFile::default();
    settings.version = 3;
    settings.config.theme = "dark".to_string();
    assert_eq!(
        load_settings(Stored::Document(settings.clone())),
        Ok(LoadedSettings { settings, created: false })
    );
}

#[test]
fn malformed_settings_are_an_error_of_their_own() {
    assert_eq!(
        load_settings(Stored::Malformed("expected value at line 1 column 1".to_string())),
        Err(SettingsError::Parse("expected value at line 1 column 1".to_string()))
    );
    assert_eq!(
        load_settings(Stored::Unreadable("permission denied".to_string())),
        Err(SettingsError::Io("permission denied".to_string()))
    );
}

#[test]
fn catalog_is_never_made_up() {
    let catalog = EndpointFile {
        name: "Catalog".to_string(),
        description: None,
        source: None,
        categories: vec![],
    };
    assert_eq!(read_endpoint_file("/s/c.json", Stored::Document(catalog.clone())), Ok(catalog));
    assert_eq!(
        read_endpoint_file("/s/c.json", Stored::Missing),
        Err(SettingsError::NotFound("Endpoint file not found: /s/c.json".to_string()))
    );
    assert_eq!(
        read_endpoint_file("/s/c.json", Stored::Malformed("bad".to_string())),
        Err(SettingsError::Parse("bad".to_string()))
    );
    assert_eq!(
        read_endpoint_file("/s/c.json", Stored::Unreadable("denied".to_string())),
        Err(SettingsError::Io("denied".to_string()))
    );
}
