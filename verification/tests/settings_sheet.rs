use std::path::PathBuf;

use alfred_pinboard_rs::command::CommandOutput;
use alfred_pinboard_rs::error::AlfredError;
use alfred_pinboard_rs::workflow_config::{
    bool_str, get_epoch, migration_outcome, parse_bool, parse_count, token_stored, Config,
    ConfigSheet, Setting, SetupStep, TokenStep, UpdateTime,
};

fn empty_sheet() -> ConfigSheet {
    ConfigSheet {
        pins_to_show: None,
        tags_to_show: None,
        tag_only_search: None,
        fuzzy_search: None,
        shared_new_pin: None,
        toread_new_pin: None,
        suggest_tags: None,
        page_is_bookmarked: None,
        show_url_vs_tags: None,
        auto_update_cache: None,
    }
}

fn some(s: &str) -> Option<String> {
    Some(s.to_string())
}

fn fresh() -> Config {
    Config::new(Some("5.5.0"), PathBuf::from("/data"), PathBuf::from("/cache"))
}

#[test]
fn bool_str_writes_alfreds_checkbox_values() {
    assert_eq!(bool_str(true), "1");
    assert_eq!(bool_str(false), "0");
}

#[test]
fn parse_bool_trims_unicode_whitespace() {
    assert_eq!(parse_bool("\u{a0}\tON\u{3000}\n"), Some(true));
    assert_eq!(parse_bool("\u{2003}No"), Some(false));
    // Fullwidth letters are not ASCII and are not folded.
    assert_eq!(parse_bool("\u{ff34}RUE"), None);
    assert_eq!(parse_bool("t rue"), None);
}

#[test]
fn parse_count_follows_u8_from_str() {
    assert_eq!(parse_count("+7"), Some(7));
    assert_eq!(parse_count("007"), Some(7));
    assert_eq!(parse_count("\t1\n"), Some(1));
    assert_eq!(parse_count("+"), None);
    assert_eq!(parse_count("++1"), None);
    assert_eq!(parse_count("-0"), None);
    assert_eq!(parse_count("000"), None);
    assert_eq!(parse_count("99999999999999999999999"), None);
}

#[test]
fn epoch_is_eleven_pm_on_the_first_day() {
    assert_eq!(get_epoch(), UpdateTime { secs: 82800, nanos: 0 });
}

#[test]
fn new_config_has_the_shipped_defaults() {
    let c = fresh();
    assert_eq!(c.pins_to_show, 10);
    assert_eq!(c.tags_to_show, 10);
    assert!(!c.tag_only_search);
    assert!(!c.fuzzy_search);
    assert!(c.private_new_pin);
    assert!(!c.toread_new_pin);
    assert!(!c.suggest_tags);
    assert!(c.page_is_bookmarked);
    assert!(c.show_url_vs_tags);
    assert!(c.auto_update_cache);
    assert_eq!(c.auth_token, "");
    assert!(c.migrated_to_alfred_config);
    assert_eq!(c.update_time, UpdateTime { secs: 82800, nanos: 0 });
    assert_eq!(c.data_dir(), &PathBuf::from("/data"));
    assert_eq!(c.cache_dir(), &PathBuf::from("/cache"));
    assert_eq!(c.alfred_version.major(), 5);
    assert_eq!(c.alfred_version.minor(), 5);
}

#[test]
fn discover_dirs_replaces_both_folders_only() {
    let mut c = fresh();
    c.pins_to_show = 3;
    c.discover_dirs(PathBuf::from("/d2"), PathBuf::from("/c2"));
    assert_eq!(c.data_dir(), &PathBuf::from("/d2"));
    assert_eq!(c.cache_dir(), &PathBuf::from("/c2"));
    assert_eq!(c.pins_to_show, 3);
}

#[test]
fn sheet_values_override_stored_ones() {
    let mut c = fresh();
    let mut sheet = empty_sheet();
    sheet.tag_only_search = some("1");
    sheet.fuzzy_search = some("yes");
    sheet.shared_new_pin = some("1");
    sheet.toread_new_pin = some("on");
    sheet.suggest_tags = some("true");
    sheet.page_is_bookmarked = some("0");
    sheet.show_url_vs_tags = some("off");
    sheet.auto_update_cache = some("no");
    sheet.pins_to_show = some(" 25 ");
    sheet.tags_to_show = some("3");
    c.auth_token = "secret".to_string();
    c.apply_env_overrides(&sheet);
    assert!(c.tag_only_search);
    assert!(c.fuzzy_search);
    // Sharing new bookmarks means they are not private.
    assert!(!c.private_new_pin);
    assert!(c.toread_new_pin);
    assert!(c.suggest_tags);
    assert!(!c.page_is_bookmarked);
    assert!(!c.show_url_vs_tags);
    assert!(!c.auto_update_cache);
    assert_eq!(c.pins_to_show, 25);
    assert_eq!(c.tags_to_show, 3);
    assert_eq!(c.auth_token, "secret");
    assert!(c.migrated_to_alfred_config);
}

#[test]
fn missing_or_malformed_sheet_values_keep_stored_ones() {
    let mut c = fresh();
    c.fuzzy_search = true;
    c.private_new_pin = false;
    c.pins_to_show = 42;
    c.tags_to_show = 7;
    let mut sheet = empty_sheet();
    sheet.fuzzy_search = some("maybe");
    sheet.shared_new_pin = some("");
    sheet.pins_to_show = some("0");
    sheet.tags_to_show = some("300");
    c.apply_env_overrides(&sheet);
    assert!(c.fuzzy_search);
    assert!(!c.private_new_pin);
    assert_eq!(c.pins_to_show, 42);
    assert_eq!(c.tags_to_show, 7);
    assert!(!c.tag_only_search);
    assert!(c.show_url_vs_tags);
}

#[test]
fn migration_writes_every_setting_still_at_its_default() {
    let mut c = fresh();
    c.migrated_to_alfred_config = false;
    c.fuzzy_search = true;
    c.private_new_pin = false;
    c.pins_to_show = 12;
    let script = c.migration_script("com.example.pinboard", &empty_sheet()).unwrap();
    let expected = "tell application id \"com.runningwithcrayons.Alfred\"\n\
set configuration \"tag_only_search\" to value \"0\" in workflow \"com.example.pinboard\"\n\
set configuration \"fuzzy_search\" to value \"1\" in workflow \"com.example.pinboard\"\n\
set configuration \"shared_new_pin\" to value \"1\" in workflow \"com.example.pinboard\"\n\
set configuration \"toread_new_pin\" to value \"0\" in workflow \"com.example.pinboard\"\n\
set configuration \"suggest_tags\" to value \"0\" in workflow \"com.example.pinboard\"\n\
set configuration \"page_is_bookmarked\" to value \"1\" in workflow \"com.example.pinboard\"\n\
set configuration \"show_url_vs_tags\" to value \"1\" in workflow \"com.example.pinboard\"\n\
set configuration \"auto_update_cache\" to value \"1\" in workflow \"com.example.pinboard\"\n\
set configuration \"pins_to_show\" to value \"12\" in workflow \"com.example.pinboard\"\n\
set configuration \"tags_to_show\" to value \"10\" in workflow \"com.example.pinboard\"\n\
end tell";
    assert_eq!(script, expected);
}

#[test]
fn migration_keeps_values_chosen_in_the_sheet() {
    let mut c = fresh();
    c.pins_to_show = 200;
    let mut sheet = empty_sheet();
    // Differs from the shipped default "0": chosen by the user, kept.
    sheet.fuzzy_search = some("1");
    // Equal to the shipped default once trimmed: overwritten.
    sheet.tags_to_show = some(" 10 ");
    // Differs from the shipped default "10": kept.
    sheet.pins_to_show = some("30");
    let script = c.migration_script("b", &sheet).unwrap();
    assert!(!script.contains("\"fuzzy_search\""));
    assert!(!script.contains("\"pins_to_show\""));
    assert!(script.contains("set configuration \"tags_to_show\" to value \"10\" in workflow \"b\"\n"));
    assert!(script.contains("set configuration \"tag_only_search\" to value \"0\""));
    assert!(script.ends_with("end tell"));
}

#[test]
fn migration_has_nothing_to_do_when_every_setting_was_chosen() {
    let c = fresh();
    let sheet = ConfigSheet {
        pins_to_show: some("1"),
        tags_to_show: some("2"),
        tag_only_search: some("1"),
        fuzzy_search: some("1"),
        shared_new_pin: some("1"),
        toread_new_pin: some("1"),
        suggest_tags: some("1"),
        page_is_bookmarked: some("0"),
        show_url_vs_tags: some("0"),
        auto_update_cache: some("0"),
    };
    assert_eq!(c.migration_script("b", &sheet), None);
}

#[test]
fn migrated_values_read_back_as_the_stored_config() {
    let mut c = fresh();
    c.tag_only_search = true;
    c.private_new_pin = false;
    c.toread_new_pin = true;
    c.pins_to_show = 0;
    c.tags_to_show = 255;
    let mut sheet = empty_sheet();
    sheet.pins_to_show = Some(c.stored_value(Setting::PinsToShow));
    sheet.tags_to_show = Some(c.stored_value(Setting::TagsToShow));
    sheet.tag_only_search = Some(c.stored_value(Setting::TagOnlySearch));
    sheet.fuzzy_search = Some(c.stored_value(Setting::FuzzySearch));
    sheet.shared_new_pin = Some(c.stored_value(Setting::SharedNewPin));
    sheet.toread_new_pin = Some(c.stored_value(Setting::ToreadNewPin));
    sheet.suggest_tags = Some(c.stored_value(Setting::SuggestTags));
    sheet.page_is_bookmarked = Some(c.stored_value(Setting::PageIsBookmarked));
    sheet.show_url_vs_tags = Some(c.stored_value(Setting::ShowUrlVsTags));
    sheet.auto_update_cache = Some(c.stored_value(Setting::AutoUpdateCache));
    assert_eq!(sheet.shared_new_pin.as_deref(), Some("1"));
    assert_eq!(sheet.tags_to_show.as_deref(), Some("255"));
    let mut d = fresh();
    d.tag_only_search = true;
    d.private_new_pin = false;
    d.toread_new_pin = true;
    d.pins_to_show = 0;
    d.tags_to_show = 255;
    d.apply_env_overrides(&sheet);
    assert!(d.tag_only_search);
    assert!(!d.private_new_pin);
    assert!(d.toread_new_pin);
    assert_eq!(d.pins_to_show, 0);
    assert_eq!(d.tags_to_show, 255);
}

#[test]
fn setting_keys_match_the_sheet_variables() {
    let keys: Vec<&str> = Setting::all().iter().map(|s| s.key()).collect();
    assert_eq!(
        keys,
        vec![
            "tag_only_search",
            "fuzzy_search",
            "shared_new_pin",
            "toread_new_pin",
            "suggest_tags",
            "page_is_bookmarked",
            "show_url_vs_tags",
            "auto_update_cache",
            "pins_to_show",
            "tags_to_show",
        ]
    );
}

#[test]
fn setup_waits_for_the_migration_before_using_the_sheet() {
    let mut c = fresh();
    c.migrated_to_alfred_config = false;
    c.fuzzy_search = false;
    let mut sheet = empty_sheet();
    sheet.fuzzy_search = some("1");
    assert_eq!(c.setup(&sheet), SetupStep::MigrateSheet);
    assert!(!c.fuzzy_search);
    assert!(!c.record_migration(false));
    assert!(!c.migrated_to_alfred_config);
    assert_eq!(c.setup(&sheet), SetupStep::MigrateSheet);
    assert!(c.record_migration(true));
    assert!(c.migrated_to_alfred_config);
    assert_eq!(c.setup(&sheet), SetupStep::Ready);
    assert!(c.fuzzy_search);
}

#[test]
fn token_found_in_the_keychain_wins() {
    let mut c = fresh();
    c.auth_token = "user:plain".to_string();
    assert_eq!(c.resolve_token(some("user:kc")), TokenStep::RewriteSettings);
    assert_eq!(c.auth_token, "user:kc");

    let mut c = fresh();
    assert_eq!(c.resolve_token(some("user:kc")), TokenStep::Done);
    assert_eq!(c.auth_token, "user:kc");
}

#[test]
fn plaintext_token_is_moved_into_the_keychain() {
    let mut c = fresh();
    c.auth_token = "user:plain".to_string();
    assert_eq!(c.resolve_token(None), TokenStep::StoreInKeychain);
    assert_eq!(c.auth_token, "user:plain");
    assert_eq!(token_stored(true), TokenStep::RewriteSettings);
    assert_eq!(token_stored(false), TokenStep::Done);

    let mut c = fresh();
    assert_eq!(c.resolve_token(None), TokenStep::Done);
    assert_eq!(c.auth_token, "");
}

#[test]
fn osascript_failure_reports_its_message() {
    let ok = CommandOutput { success: true, stdout: vec![], stderr: b"ignored".to_vec() };
    assert_eq!(migration_outcome(&ok), Ok(()));
    let failed = CommandOutput {
        success: false,
        stdout: vec![],
        stderr: b"  execution error: Alfred got an error (-1728)\n".to_vec(),
    };
    assert_eq!(
        migration_outcome(&failed),
        Err(AlfredError::OsascriptError(
            "execution error: Alfred got an error (-1728)".to_string()
        ))
    );
}
