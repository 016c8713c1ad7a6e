use avd_health_monitor::settings::{EndpointCategory, EndpointDefinition, EndpointFile};
use avd_health_monitor::updater::update_endpoint_state;

fn definition(id: &str, name: &str) -> EndpointDefinition {
    EndpointDefinition {
        id: id.to_string(),
        name: name.to_string(),
        url: format!("{}.example.com", id),
        port: Some(443),
        protocol: None,
        required: true,
        purpose: Some("Testing".to_string()),
        enabled: true,
        latency_critical: None,
        muted: None,
        wildcard_pattern: None,
        known_subdomains: None,
    }
}

fn catalog() -> EndpointFile {
    EndpointFile {
        name: "Catalog".to_string(),
        description: None,
        source: None,
        categories: vec![
            EndpointCategory {
                name: "First".to_string(),
                description: None,
                endpoints: vec![definition("a", "A"), definition("b", "B")],
            },
            EndpointCategory {
                name: "Second".to_string(),
                description: Some("More".to_string()),
                endpoints: vec![definition("c", "C"), definition("b", "Second B")],
            },
        ],
    }
}

#[test]
fn unknown_id_leaves_the_catalog_unchanged() {
    let mut file = catalog();
    update_endpoint_state(
        &mut file,
        "missing",
        Some(false),
        Some(true),
        Some("New".to_string()),
        Some("new.example.com".to_string()),
        Some(80),
    );
    assert_eq!(file, catalog());
}

#[test]
fn only_the_given_fields_are_overwritten() {
    let mut file = catalog();
    update_endpoint_state(&mut file, "c", Some(false), None, None, None, None);
    let mut expected = catalog();
    expected.categories[1].endpoints[0].enabled = false;
    assert_eq!(file, expected);

    update_endpoint_state(&mut file, "c", None, Some(true), None, None, Some(8080));
    expected.categories[1].endpoints[0].muted = Some(true);
    expected.categories[1].endpoints[0].port = Some(8080);
    assert_eq!(file, expected);

    update_endpoint_state(
        &mut file,
        "a",
        None,
        None,
        Some("Renamed".to_string()),
        Some("renamed.example.com".to_string()),
        None,
    );
    expected.categories[0].endpoints[0].name = "Renamed".to_string();
    expected.categories[0].endpoints[0].url = "renamed.example.com".to_string();
    assert_eq!(file, expected);
}

#[test]
fn first_match_wins() {
    let mut file = catalog();
    update_endpoint_state(&mut file, "b", Some(false), Some(false), None, None, None);
    let mut expected = catalog();
    expected.categories[0].endpoints[1].enabled = false;
    expected.categories[0].endpoints[1].muted = Some(false);
    assert_eq!(file, expected);
    assert_eq!(file.categories[1].endpoints[1].name, "Second B");
    assert!(file.categories[1].endpoints[1].enabled);
    assert_eq!(file.categories[1].endpoints[1].muted, None);
}

#[test]
fn a_change_without_fields_changes_nothing() {
    let mut file = catalog();
    update_endpoint_state(&mut file, "a", None, None, None, None, None);
    assert_eq!(file, catalog());
}

#[test]
fn an_empty_catalog_stays_empty() {
    let mut file = EndpointFile {
        name: "Empty".to_string(),
        description: None,
        source: None,
        categories: vec![],
    };
    update_endpoint_state(&mut file, "a", Some(true), None, None, None, None);
    assert!(file.categories.is_empty());
}
