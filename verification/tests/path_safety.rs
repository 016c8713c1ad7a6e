use avd_health_monitor::path_safety::{
    containment_verdict, editor_command, open_file, resource_file_path, validate_path_in_dir,
    Launch, ResolvedPath,
};
use avd_health_monitor::paths::Platform;
use std::path::Path;

/// A path with what the file system says its canonical form is.
fn resolve(path: &str) -> ResolvedPath {
    ResolvedPath {
        given: path.to_string(),
        canonical: Path::new(path)
            .canonicalize()
            .map(|p| p.to_string_lossy().into_owned())
            .map_err(|e| e.to_string()),
    }
}

fn resolved(given: &str, canonical: &str) -> ResolvedPath {
    ResolvedPath { given: given.to_string(), canonical: Ok(canonical.to_string()) }
}

#[test]
fn test_valid_path_in_dir() {
    // Valid path should pass
    let result = validate_path_in_dir(&resolve("/usr/bin"), &resolve("/usr"));
    assert!(result.is_ok());
    let result = validate_path_in_dir(
        &resolved("/tmp/path_safety_test/test.txt", "/tmp/path_safety_test/test.txt"),
        &resolved("/tmp/path_safety_test", "/tmp/path_safety_test"),
    );
    assert_eq!(result, Ok("/tmp/path_safety_test/test.txt".to_string()));
}

#[test]
fn test_path_traversal_blocked() {
    // Attempt to traverse outside the allowed directory
    let result = validate_path_in_dir(&resolve("/usr/bin/../../etc"), &resolve("/usr/bin"));
    assert!(result.is_err());
    let result = validate_path_in_dir(
        &resolved("/tmp/path_safety_test2/../etc/passwd", "/tmp/etc/passwd"),
        &resolved("/tmp/path_safety_test2", "/tmp/path_safety_test2"),
    );
    assert_eq!(
        result,
        Err("Path traversal blocked: '/tmp/etc/passwd' is not within '/tmp/path_safety_test2'"
            .to_string())
    );
}

#[test]
fn test_nonexistent_path() {
    let nonexistent = resolve("/tmp/definitely_does_not_exist_12345.txt");
    let result = validate_path_in_dir(&nonexistent, &resolve("/tmp"));
    assert!(result.is_err());
    assert!(result.unwrap_err().contains("Cannot resolve path"));
}

#[test]
fn traversal_out_of_the_base_is_rejected_and_a_file_below_it_accepted() {
    // both exist on this system
    let base = resolve("/usr");
    let outside = validate_path_in_dir(&resolve("/usr/../etc"), &base);
    assert!(outside.unwrap_err().starts_with("Path traversal blocked: "));
    let inside = validate_path_in_dir(&resolve("/usr/bin/../bin"), &base);
    let accepted = inside.unwrap();
    assert!(Path::new(&accepted).starts_with(base.canonical.as_ref().unwrap()));
}

#[test]
fn containment_goes_by_whole_components() {
    let base = resolved("/data/base", "/data/base");
    assert!(validate_path_in_dir(&resolved("x", "/data/base"), &base).is_ok());
    assert!(validate_path_in_dir(&resolved("x", "/data/base/sub/file"), &base).is_ok());
    assert!(validate_path_in_dir(&resolved("x", "/data/basement/file"), &base).is_err());
    assert!(validate_path_in_dir(&resolved("x", "/data"), &base).is_err());
}

#[test]
fn unresolved_paths_are_reported_the_path_first() {
    let bad_path = ResolvedPath { given: "p".to_string(), canonical: Err("gone".to_string()) };
    let bad_base = ResolvedPath { given: "b".to_string(), canonical: Err("denied".to_string()) };
    let good = resolved("g", "/g");
    assert_eq!(
        validate_path_in_dir(&bad_path, &bad_base),
        Err("Cannot resolve path 'p': gone".to_string())
    );
    assert_eq!(
        validate_path_in_dir(&bad_path, &good),
        Err("Cannot resolve path 'p': gone".to_string())
    );
    assert_eq!(
        validate_path_in_dir(&good, &bad_base),
        Err("Cannot resolve base path 'b': denied".to_string())
    );
}

#[test]
fn verdict_on_a_known_containment() {
    assert_eq!(containment_verdict("/a/b", "/a", true), Ok("/a/b".to_string()));
    assert_eq!(
        containment_verdict("/a/b", "/c", false),
        Err("Path traversal blocked: '/a/b' is not within '/c'".to_string())
    );
}

#[test]
fn editors() {
    assert_eq!(
        editor_command(Platform::Windows, "C:\\s.json"),
        Some(Launch { program: "notepad".to_string(), args: vec!["C:\\s.json".to_string()] })
    );
    assert_eq!(
        editor_command(Platform::MacOs, "/s.json"),
        Some(Launch {
            program: "open".to_string(),
            args: vec!["-t".to_string(), "/s.json".to_string()]
        })
    );
    assert_eq!(
        editor_command(Platform::Linux, "/s.json"),
        Some(Launch { program: "xdg-open".to_string(), args: vec!["/s.json".to_string()] })
    );
    assert_eq!(editor_command(Platform::Other, "/s.json"), None);
}

#[test]
fn a_file_outside_the_base_is_not_opened() {
    let base = resolved("/data/base", "/data/base");
    assert_eq!(
        open_file(Platform::Linux, &resolved("f", "/data/base/f"), &base),
        Ok(Some(Launch { program: "xdg-open".to_string(), args: vec!["/data/base/f".to_string()] }))
    );
    assert_eq!(open_file(Platform::Other, &resolved("f", "/data/base/f"), &base), Ok(None));
    assert!(open_file(Platform::Linux, &resolved("f", "/data/f"), &base).is_err());
}

#[test]
fn bundled_files_lie_in_the_resources_subdirectory() {
    let expected = Path::new("/res").join("resources").join("enduser-endpoints.json");
    assert_eq!(
        resource_file_path("/res", "enduser-endpoints.json"),
        expected.to_string_lossy().into_owned()
    );
}
