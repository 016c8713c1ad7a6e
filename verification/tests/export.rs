use avd_health_monitor::export::{check_import, export_error, import_error, ExportStep, ImportStep};

#[test]
fn import_errors_name_the_step() {
    assert_eq!(import_error(ImportStep::Read, "denied"), "Failed to read file: denied");
    assert_eq!(import_error(ImportStep::ParseJson, "eof"), "Invalid JSON: eof");
    assert_eq!(import_error(ImportStep::Validate, "report"), "report");
    assert_eq!(import_error(ImportStep::Deserialize, "bad"), "Failed to parse settings: bad");
    assert_eq!(import_error(ImportStep::Save, "full"), "Failed to save settings: full");
    assert_eq!(import_error(ImportStep::Reload, "gone"), "Failed to load settings: gone");
}

#[test]
fn export_errors_name_the_step() {
    assert_eq!(
        export_error(ExportStep::Serialize, "bad"),
        "Failed to serialize settings: bad"
    );
    assert_eq!(export_error(ExportStep::Write, "denied"), "Failed to write file: denied");
}

#[test]
fn import_is_checked_before_it_is_accepted() {
    let document = check_import("{\"version\": 2, \"config\": {\"mode\": \"enduser\"}}").unwrap();
    assert_eq!(document["version"], 2);
    assert_eq!(document["config"]["mode"], "enduser");
    assert!(check_import("{}").is_ok());
    assert!(check_import("{\"version\": ").unwrap_err().starts_with("Invalid JSON: "));
    assert!(check_import("{\"version\": \"two\"}")
        .unwrap_err()
        .starts_with("Settings validation failed:\n  - /version: "));
}
