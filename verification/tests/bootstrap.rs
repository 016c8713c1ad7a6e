use avd_health_monitor::bootstrap::{
    initialize_settings, load_endpoint_file, resource_candidates, sources_for, Bootstrap,
    CopyOutcome,
};
use avd_health_monitor::error::SettingsError;
use avd_health_monitor::settings::{AppMode, SettingsFile};
use std::path::Path;

fn joined(base: &str, names: &[&str]) -> String {
    let mut path = Path::new(base).to_path_buf();
    for name in names {
        path = path.join(name);
    }
    path.to_string_lossy().into_owned()
}

fn sources() -> Vec<String> {
    vec!["/r/f".to_string(), "/r/resources/f".to_string(), "/e/f".to_string()]
}

#[test]
fn candidates_are_ordered() {
    assert_eq!(
        resource_candidates(Some("/res"), Some("/exe")),
        vec![
            "/res".to_string(),
            joined("/res", &["resources"]),
            "/exe".to_string(),
            joined("/exe", &["resources"]),
        ]
    );
    assert_eq!(
        resource_candidates(None, Some("/exe")),
        vec!["/exe".to_string(), joined("/exe", &["resources"])]
    );
    assert_eq!(
        resource_candidates(Some("/res"), None),
        vec!["/res".to_string(), joined("/res", &["resources"])]
    );
    assert!(resource_candidates(None, None).is_empty());
}

#[test]
fn sources_are_the_file_in_each_directory() {
    let dirs = vec!["/a".to_string(), "/b".to_string()];
    assert_eq!(sources_for(&dirs, "x.json"), vec![joined("/a", &["x.json"]), joined("/b", &["x.json"])]);
    assert!(sources_for(&Vec::new(), "x.json").is_empty());
}

#[test]
fn search_stops_at_the_first_copy() {
    let mut search = Bootstrap::new("/s/f".to_string(), false, sources());
    assert_eq!(search.next_source(), Some("/r/f".to_string()));
    search.record(CopyOutcome::Missing);
    assert_eq!(search.next_source(), Some("/r/resources/f".to_string()));
    search.record(CopyOutcome::Copied);
    assert_eq!(search.next_source(), None);
    assert!(search.is_present());
    assert_eq!(search.finish(), Ok("/s/f".to_string()));
    // a finished search takes no further note
    search.record(CopyOutcome::Failed);
    assert!(search.is_present());
    assert_eq!(search.next_source(), None);
}

#[test]
fn failed_copy_moves_on_to_the_next_candidate() {
    let mut search = Bootstrap::new("/s/f".to_string(), false, sources());
    search.record(CopyOutcome::Failed);
    assert_eq!(search.next_source(), Some("/r/resources/f".to_string()));
    search.record(CopyOutcome::Failed);
    assert_eq!(search.next_source(), Some("/e/f".to_string()));
    search.record(CopyOutcome::Copied);
    assert_eq!(search.finish(), Ok("/s/f".to_string()));
}

#[test]
fn search_without_a_usable_candidate_ends_not_found() {
    let mut search = Bootstrap::new("/s/f".to_string(), false, sources());
    search.record(CopyOutcome::Missing);
    search.record(CopyOutcome::Failed);
    search.record(CopyOutcome::Missing);
    assert_eq!(search.next_source(), None);
    assert!(!search.is_present());
    assert_eq!(
        search.finish(),
        Err(SettingsError::NotFound("Endpoint file not found: /s/f".to_string()))
    );
    let search = Bootstrap::new("/s/f".to_string(), false, Vec::new());
    assert_eq!(search.next_source(), None);
    assert!(search.finish().is_err());
}

#[test]
fn file_in_place_is_not_searched_for() {
    let mut search = Bootstrap::new("/s/f".to_string(), true, sources());
    assert_eq!(search.next_source(), None);
    assert_eq!(search.target(), "/s/f");
    search.record(CopyOutcome::Copied);
    assert_eq!(search.next_source(), None);
    assert_eq!(search.finish(), Ok("/s/f".to_string()));
}

#[test]
fn catalog_is_searched_under_its_file_name() {
    let search = load_endpoint_file(&AppMode::EndUser, "/settings", false, Some("/res"), Some("/exe"));
    assert_eq!(search.target(), joined("/settings", &["enduser-endpoints.json"]));
    let mut search = search;
    let mut tried = Vec::new();
    while let Some(source) = search.next_source() {
        tried.push(source);
        search.record(CopyOutcome::Missing);
    }
    assert_eq!(
        tried,
        vec![
            joined("/res", &["enduser-endpoints.json"]),
            joined("/res", &["resources", "enduser-endpoints.json"]),
            joined("/exe", &["enduser-endpoints.json"]),
            joined("/exe", &["resources", "enduser-endpoints.json"]),
        ]
    );
    assert!(search.finish().is_err());
}

#[test]
fn first_run_creates_settings_and_searches_both_catalogs() {
    let plan = initialize_settings("/settings", false, false, true, Some("/res"), None);
    assert_eq!(plan.settings_path, joined("/settings", &["settings.json"]));
    assert_eq!(plan.default_settings, Some(SettingsFile::default()));
    assert_eq!(plan.catalogs.len(), 2);
    assert_eq!(plan.catalogs[0].target(), joined("/settings", &["sessionhost-endpoints.json"]));
    assert_eq!(
        plan.catalogs[0].next_source(),
        Some(joined("/res", &["sessionhost-endpoints.json"]))
    );
    assert_eq!(plan.catalogs[1].target(), joined("/settings", &["enduser-endpoints.json"]));
    assert_eq!(plan.catalogs[1].next_source(), None);
    assert!(plan.catalogs[1].is_present());
}

#[test]
fn later_run_keeps_the_settings() {
    let plan = initialize_settings("/settings", true, true, true, None, Some("/exe"));
    assert_eq!(plan.default_settings, None);
    assert!(plan.catalogs.iter().all(|c| c.next_source().is_none() && c.is_present()));
}
