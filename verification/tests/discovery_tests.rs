use oddsockets::constants;
use oddsockets::manager_discovery::{resolve_manager_url, validate_manager_url, ManagerDiscovery};
use oddsockets::OddSocketsError;

#[test]
fn test_configured_url_is_used_verbatim() {
    let discovery = ManagerDiscovery::new(Some("https://example.invalid/custom"), None).unwrap();
    let url = discovery.discover_manager_url().unwrap();
    assert_eq!(url, "https://example.invalid/custom");
    assert_ne!(url, constants::DEFAULT_MANAGER_URL);
}

#[test]
fn test_trailing_slashes_are_stripped() {
    let discovery = ManagerDiscovery::new(Some("https://example.invalid/custom//"), None).unwrap();
    assert_eq!(
        discovery.discover_manager_url().unwrap(),
        "https://example.invalid/custom"
    );
}

#[test]
fn test_invalid_url_is_rejected() {
    let err = ManagerDiscovery::new(Some("not-a-url"), None).unwrap_err();
    match err {
        OddSocketsError::InvalidConfiguration { message } => {
            assert_eq!(message, "Invalid managerUrl: not-a-url");
        }
        other => panic!("Expected InvalidConfiguration, got {:?}", other),
    }
}

#[test]
fn test_non_http_scheme_is_rejected() {
    assert!(ManagerDiscovery::new(Some("ftp://example.invalid"), None).is_err());
    assert!(ManagerDiscovery::new(Some("/api/cluster"), None).is_err());
}

#[test]
fn test_default_applies_only_when_nothing_configured() {
    assert_eq!(
        resolve_manager_url(None, None).unwrap(),
        constants::DEFAULT_MANAGER_URL
    );
}

#[test]
fn environment_applies_when_nothing_configured() {
    assert_eq!(
        resolve_manager_url(Some("   "), Some(" http://staging.example:8080/ ")).unwrap(),
        "http://staging.example:8080"
    );
    assert_eq!(
        resolve_manager_url(Some("https://mine.example"), Some("http://staging.example")).unwrap(),
        "https://mine.example"
    );
}

#[test]
fn manager_url_is_trimmed_and_checked() {
    assert_eq!(validate_manager_url("  https://a.example/x/  ").unwrap(), "https://a.example/x");
    assert!(validate_manager_url("https://").is_err());
    assert!(validate_manager_url("mailto:someone@example.com").is_err());
    let d = ManagerDiscovery::new(Some("http://localhost:3001/"), None).unwrap();
    assert_eq!(d.manager_url(), "http://localhost:3001");
}
