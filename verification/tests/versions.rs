//! Version parsing, comparison and registry-output scanning.

use crossbundle_core::version::{
    get_version_from_output, is_newer, is_newer_found, is_same, is_same_found,
    latest_version_from_search_output, Version,
};

#[test]
fn from_semver_parses_three_components() {
    let v = Version::from_semver("1.22.333").unwrap();
    assert_eq!(v.major, 1);
    assert_eq!(v.minor, 22);
    assert_eq!(v.patch, 333);
}

#[test]
fn from_semver_rejects_malformed_strings() {
    assert!(Version::from_semver("").is_err());
    assert!(Version::from_semver("1.2").is_err());
    assert!(Version::from_semver("1.2.3.4").is_err());
    assert!(Version::from_semver("1.2.x").is_err());
    assert!(Version::from_semver("1..3").is_err());
    assert!(Version::from_semver("1.2.3-beta").is_err());
    // A component beyond the representable range does not parse.
    assert!(Version::from_semver("1.2.4294967296").is_err());
}

#[test]
fn from_semver_accepts_extreme_components() {
    let v = Version::from_semver("0.0.4294967295").unwrap();
    assert_eq!(v.major, 0);
    assert_eq!(v.minor, 0);
    assert_eq!(v.patch, 4294967295);
}

#[test]
fn is_newer_orders_lexicographically() {
    assert!(is_newer("1.2.3", "2.0.0", false));
    assert!(is_newer("1.2.3", "1.3.0", false));
    assert!(is_newer("1.2.3", "1.2.4", false));
    assert!(!is_newer("1.2.3", "1.2.3", false));
    assert!(!is_newer("1.2.3", "1.2.2", false));
    assert!(!is_newer("2.0.0", "1.9.9", false));
}

#[test]
fn is_newer_falls_back_on_unparseable_input() {
    assert!(is_newer("not-a-version", "1.0.0", true));
    assert!(!is_newer("not-a-version", "1.0.0", false));
    assert!(is_newer("1.0.0", "garbage", true));
}

#[test]
fn is_same_compares_all_components() {
    assert!(is_same("1.2.3", "1.2.3", false));
    assert!(!is_same("1.2.3", "1.2.4", false));
    assert!(is_same("bad", "1.2.3", true));
    assert!(!is_same("1.2.3", "bad", false));
}

#[test]
fn found_helpers_compare_against_this_package() {
    // This package identifies itself as 0.1.0.
    assert!(is_newer_found("0.2.0"));
    assert!(!is_newer_found("0.1.0"));
    assert!(!is_newer_found("0.0.9"));
    assert!(is_same_found("0.1.0"));
    assert!(!is_same_found("0.2.0"));
    assert!(!is_newer_found("unparseable"));
    assert!(!is_same_found("unparseable"));
}

#[test]
fn version_extracted_from_search_line() {
    let line = "crossbundle = \"0.2.5\"    # Cross-platform build tool";
    assert_eq!(get_version_from_output(line).unwrap(), "0.2.5");
}

#[test]
fn version_extraction_needs_three_fields() {
    assert_eq!(get_version_from_output("crossbundle"), None);
    assert_eq!(get_version_from_output("crossbundle ="), None);
}

#[test]
fn search_output_scan_finds_marked_line() {
    let stdout = "some header\n  crossbundle = \"0.3.1\"    # tool\nother = \"1.0.0\"\n";
    assert_eq!(
        latest_version_from_search_output(stdout).unwrap(),
        "0.3.1"
    );
}

#[test]
fn search_output_scan_without_marked_line() {
    let stdout = "other = \"1.0.0\"\nunrelated text\n";
    assert_eq!(latest_version_from_search_output(stdout), None);
}
