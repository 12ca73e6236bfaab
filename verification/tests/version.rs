use std::path::PathBuf;

use alfred_pinboard_rs::version::get_alfred_version;
use alfred_pinboard_rs::workflow_config::Config;

fn parts(v: &alfred_pinboard_rs::version::AlfredVersion) -> (u64, u64, u64, String, String) {
    (v.major(), v.minor(), v.patch(), v.pre().to_string(), v.build().to_string())
}

fn config_under(version: Option<&str>) -> Config {
    Config::new(version, PathBuf::new(), PathBuf::new())
}

#[test]
fn missing_version_is_two() {
    assert_eq!(parts(&get_alfred_version(None)), (2, 0, 0, String::new(), String::new()));
}

#[test]
fn semantic_versions_are_taken_as_they_are() {
    assert_eq!(parts(&get_alfred_version(Some("5.2.1"))), (5, 2, 1, String::new(), String::new()));
    assert_eq!(
        parts(&get_alfred_version(Some("5.0.0-EA+2071"))),
        (5, 0, 0, "EA".to_string(), "2071".to_string())
    );
}

#[test]
fn other_versions_keep_the_number_before_the_first_dot() {
    assert_eq!(parts(&get_alfred_version(Some("4.0"))), (4, 0, 0, String::new(), String::new()));
    assert_eq!(parts(&get_alfred_version(Some("12.x.y"))), (12, 0, 0, String::new(), String::new()));
    assert_eq!(parts(&get_alfred_version(Some("x.1"))), (2, 0, 0, String::new(), String::new()));
    assert_eq!(parts(&get_alfred_version(Some(".5"))), (2, 0, 0, String::new(), String::new()));
    assert_eq!(parts(&get_alfred_version(Some("five"))), (2, 0, 0, String::new(), String::new()));
}

#[test]
fn json_needs_alfred_three_or_later() {
    assert!(!config_under(None).can_use_json());
    assert!(!config_under(Some("2.8.1")).can_use_json());
    assert!(config_under(Some("3.0.0")).can_use_json());
    assert!(config_under(Some("5.5")).can_use_json());
    assert!(config_under(Some("3.0.0+build.7")).can_use_json());
    assert!(!config_under(Some("3.0.0-rc.1")).can_use_json());
}

#[test]
fn only_early_access_prereleases_of_five_use_json() {
    assert!(config_under(Some("5.0.0-EA")).can_use_json());
    assert!(!config_under(Some("4.0.0-beta")).can_use_json());
    assert!(!config_under(Some("5.1.0-beta")).can_use_json());
}
