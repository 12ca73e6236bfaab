//! The workflow's configuration: reading Alfred's workflow-configuration
//! values, the stored settings and how the two are reconciled.

use std::path::PathBuf;

use vstd::prelude::*;
use vstd::string::*;

use crate::command::{trimmed_output, utf8_lossy, CommandOutput};
use crate::error::AlfredError;
use crate::version::{
    alfred_version_from, get_alfred_version, parse_version_req, req_matches, AlfredVersion,
    semver_req_matches,
};
use crate::text::{
    ascii_lowercase, chars_of, decimal, is_whitespace, lemma_decimal_digits, lemma_trim_idempotent, trim_end, trim_start, lemma_trim_unchanged, lowercase_equals, parse_decimal,
    parse_unsigned, to_ascii_lowercase, trim, trimmed_chars, u8_text,
};

verus! {

/// What `parse_bool` makes of a configuration value: after trimming and
/// ASCII lowercasing, `1`/`true`/`yes`/`on` is `true`, `0`/`false`/`no`/`off`
/// is `false`, anything else (empty included) is no value.
pub open spec fn parsed_bool(s: Seq<char>) -> Option<bool> {
    let t = to_ascii_lowercase(trim(s));
    if t == seq!['1'] || t == seq!['t', 'r', 'u', 'e'] || t == seq!['y', 'e', 's'] || t == seq![
        'o',
        'n',
    ] {
        Some(true)
    } else if t == seq!['0'] || t == seq!['f', 'a', 'l', 's', 'e'] || t == seq!['n', 'o'] || t
        == seq!['o', 'f', 'f'] {
        Some(false)
    } else {
        None
    }
}

/// What `parse_count` makes of a configuration value: the trimmed text read
/// as a `u8`, and zero refused.
pub open spec fn parsed_count(s: Seq<char>) -> Option<u8> {
    match parse_unsigned(trim(s), 255) {
        Some(n) => if n > 0 {
            Some(n as u8)
        } else {
            None
        },
        None => None,
    }
}

/// How a boolean is written into Alfred's configuration sheet.
pub open spec fn bool_text(b: bool) -> Seq<char> {
    if b {
        seq!['1']
    } else {
        seq!['0']
    }
}

/// How a boolean is written into Alfred's configuration sheet. Alfred's own
/// checkboxes use "1"/"0", so match that.
pub fn bool_str(b: bool) -> (r: String)
    ensures
        r@ == bool_text(b),
{
    proof {
        reveal_strlit("1");
        reveal_strlit("0");
    }
    if b {
        String::from_str("1")
    } else {
        String::from_str("0")
    }
}

/// Parse a checkbox value from Alfred's configuration sheet.
///
/// Alfred writes "1"/"0", but the sheet is user-editable and these values can
/// also be set by hand or by AppleScript, so accept the obvious spellings.
/// Anything else, including empty, returns `None` so the caller keeps the
/// value it already had.
pub fn parse_bool(s: &str) -> (r: Option<bool>)
    ensures
        r == parsed_bool(s@),
{
    let t = trimmed_chars(s);
    let one: &[char] = &['1'];
    let true_word: &[char] = &['t', 'r', 'u', 'e'];
    let yes: &[char] = &['y', 'e', 's'];
    let on: &[char] = &['o', 'n'];
    let zero: &[char] = &['0'];
    let false_word: &[char] = &['f', 'a', 'l', 's', 'e'];
    let no: &[char] = &['n', 'o'];
    let off: &[char] = &['o', 'f', 'f'];
    assert(one@ =~= seq!['1']);
    assert(true_word@ =~= seq!['t', 'r', 'u', 'e']);
    assert(yes@ =~= seq!['y', 'e', 's']);
    assert(on@ =~= seq!['o', 'n']);
    assert(zero@ =~= seq!['0']);
    assert(false_word@ =~= seq!['f', 'a', 'l', 's', 'e']);
    assert(no@ =~= seq!['n', 'o']);
    assert(off@ =~= seq!['o', 'f', 'f']);
    if lowercase_equals(&t, one) || lowercase_equals(&t, true_word) || lowercase_equals(&t, yes)
        || lowercase_equals(&t, on) {
        Some(true)
    } else if lowercase_equals(&t, zero) || lowercase_equals(&t, false_word) || lowercase_equals(
        &t,
        no,
    ) || lowercase_equals(&t, off) {
        Some(false)
    } else {
        None
    }
}

/// Parse a "how many rows to show" value. Zero is rejected rather than
/// honoured: it would render an empty Alfred window that looks like a broken
/// workflow, and is far more likely to be a mistake than an intent.
pub fn parse_count(s: &str) -> (r: Option<u8>)
    ensures
        r == parsed_count(s@),
        r matches Some(n) ==> n > 0,
{
    let t = trimmed_chars(s);
    match parse_decimal(&t, 255) {
        Some(n) => if n > 0 {
            Some(n as u8)
        } else {
            None
        },
        None => None,
    }
}

/// A boolean written in Alfred's format reads back as the same boolean.
pub proof fn law_bool_round_trip(b: bool)
    ensures
        parsed_bool(bool_text(b)) == Some(b),
{
    lemma_trim_unchanged(bool_text(b));
    assert(to_ascii_lowercase(bool_text(b)) =~= bool_text(b));
}

/// A nonzero row count written as its decimal text reads back as the same
/// count.
pub proof fn law_count_round_trip(n: u8)
    requires
        n > 0,
    ensures
        parsed_count(decimal(n as nat)) == Some(n),
{
    lemma_decimal_digits(n as nat);
    lemma_trim_unchanged(decimal(n as nat));
}

#[verifier::external_type_specification]
#[verifier::external_body]
pub struct ExPathBuf(PathBuf);

/// A point in time, in UTC: whole seconds since the Unix epoch and the
/// nanoseconds past that second.
#[derive(PartialEq, Eq, Debug, Clone, Copy)]
pub struct UpdateTime {
    pub secs: i64,
    pub nanos: u32,
}

/// What `DateTime<Utc>::from_str` makes of a text, as seconds and
/// nanoseconds: `None` where chrono refuses it.
pub uninterp spec fn chrono_utc_from_str(text: Seq<char>) -> Option<(i64, u32)>;

/// The time stamp that stands for "never updated".
pub open spec fn epoch_text() -> Seq<char> {
    "1970-01-01T23:00:00Z"@
}

/// Calls `<DateTime<Utc> as FromStr>::from_str` (chrono's relaxed RFC 3339)
/// and takes `timestamp` and `timestamp_subsec_nanos` of what it returns. The
/// contract names the result `chrono_utc_from_str`, and claims that the fixed
/// text `1970-01-01T23:00:00Z`, a complete RFC 3339 date-time, is accepted.
#[verifier::external_body]
fn parse_utc(text: &str) -> (r: Option<UpdateTime>)
    ensures
        match r {
            Some(t) => chrono_utc_from_str(text@) == Some((t.secs, t.nanos)),
            None => chrono_utc_from_str(text@) is None,
        },
        text@ == epoch_text() ==> r is Some,
{
    match text.parse::<chrono::DateTime<chrono::Utc>>() {
        Ok(t) => Some(UpdateTime { secs: t.timestamp(), nanos: t.timestamp_subsec_nanos() }),
        Err(_) => None,
    }
}

/// The time stamp that stands for "never updated".
pub open spec fn epoch() -> UpdateTime {
    let t = chrono_utc_from_str(epoch_text())->0;
    UpdateTime { secs: t.0, nanos: t.1 }
}

/// The time stamp that stands for "never updated": 1970-01-01T23:00:00Z.
pub fn get_epoch() -> (r: UpdateTime)
    ensures
        r == epoch(),
{
    match parse_utc("1970-01-01T23:00:00Z") {
        Some(t) => t,
        None => {
            assert(false);
            UpdateTime { secs: 0, nanos: 0 }
        },
    }
}

/// One of the ten options that live in Alfred's workflow configuration
/// sheet.
#[derive(PartialEq, Eq, Debug, Clone, Copy)]
pub enum Setting {
    PinsToShow,
    TagsToShow,
    TagOnlySearch,
    FuzzySearch,
    SharedNewPin,
    ToreadNewPin,
    SuggestTags,
    PageIsBookmarked,
    ShowUrlVsTags,
    AutoUpdateCache,
}

/// The variable under which Alfred exports a setting. These must match the
/// `variable` of each entry in `userconfigurationconfig` in the workflow's
/// `info.plist`.
pub open spec fn key_text(s: Setting) -> Seq<char> {
    match s {
        Setting::PinsToShow => "pins_to_show"@,
        Setting::TagsToShow => "tags_to_show"@,
        Setting::TagOnlySearch => "tag_only_search"@,
        Setting::FuzzySearch => "fuzzy_search"@,
        Setting::SharedNewPin => "shared_new_pin"@,
        Setting::ToreadNewPin => "toread_new_pin"@,
        Setting::SuggestTags => "suggest_tags"@,
        Setting::PageIsBookmarked => "page_is_bookmarked"@,
        Setting::ShowUrlVsTags => "show_url_vs_tags"@,
        Setting::AutoUpdateCache => "auto_update_cache"@,
    }
}

/// Every setting of the configuration sheet, in the order in which they are
/// migrated.
pub open spec fn all_settings() -> Seq<Setting> {
    seq![
        Setting::TagOnlySearch,
        Setting::FuzzySearch,
        Setting::SharedNewPin,
        Setting::ToreadNewPin,
        Setting::SuggestTags,
        Setting::PageIsBookmarked,
        Setting::ShowUrlVsTags,
        Setting::AutoUpdateCache,
        Setting::PinsToShow,
        Setting::TagsToShow,
    ]
}

impl Setting {
    /// The variable under which Alfred exports this setting.
    pub fn key(&self) -> (r: &'static str)
        ensures
            r@ == key_text(*self),
    {
        match self {
            Setting::PinsToShow => "pins_to_show",
            Setting::TagsToShow => "tags_to_show",
            Setting::TagOnlySearch => "tag_only_search",
            Setting::FuzzySearch => "fuzzy_search",
            Setting::SharedNewPin => "shared_new_pin",
            Setting::ToreadNewPin => "toread_new_pin",
            Setting::SuggestTags => "suggest_tags",
            Setting::PageIsBookmarked => "page_is_bookmarked",
            Setting::ShowUrlVsTags => "show_url_vs_tags",
            Setting::AutoUpdateCache => "auto_update_cache",
        }
    }

    /// Every setting, in the order in which they are migrated.
    pub fn all() -> (r: Vec<Setting>)
        ensures
            r@ == all_settings(),
    {
        let r = vec![
            Setting::TagOnlySearch,
            Setting::FuzzySearch,
            Setting::SharedNewPin,
            Setting::ToreadNewPin,
            Setting::SuggestTags,
            Setting::PageIsBookmarked,
            Setting::ShowUrlVsTags,
            Setting::AutoUpdateCache,
            Setting::PinsToShow,
            Setting::TagsToShow,
        ];
        assert(r@ =~= all_settings());
        r
    }
}

/// The values Alfred's workflow configuration sheet hands the workflow, one
/// per setting, `None` where the variable is not set.
pub struct ConfigSheet {
    pub pins_to_show: Option<String>,
    pub tags_to_show: Option<String>,
    pub tag_only_search: Option<String>,
    pub fuzzy_search: Option<String>,
    pub shared_new_pin: Option<String>,
    pub toread_new_pin: Option<String>,
    pub suggest_tags: Option<String>,
    pub page_is_bookmarked: Option<String>,
    pub show_url_vs_tags: Option<String>,
    pub auto_update_cache: Option<String>,
}

/// The text of an optional value.
pub open spec fn entry_text(v: Option<String>) -> Option<Seq<char>> {
    match v {
        Some(t) => Some(t@),
        None => None,
    }
}

/// The value the sheet holds for a setting.
pub open spec fn sheet_entry(sheet: ConfigSheet, s: Setting) -> Option<Seq<char>> {
    entry_text(
        match s {
            Setting::PinsToShow => sheet.pins_to_show,
            Setting::TagsToShow => sheet.tags_to_show,
            Setting::TagOnlySearch => sheet.tag_only_search,
            Setting::FuzzySearch => sheet.fuzzy_search,
            Setting::SharedNewPin => sheet.shared_new_pin,
            Setting::ToreadNewPin => sheet.toread_new_pin,
            Setting::SuggestTags => sheet.suggest_tags,
            Setting::PageIsBookmarked => sheet.page_is_bookmarked,
            Setting::ShowUrlVsTags => sheet.show_url_vs_tags,
            Setting::AutoUpdateCache => sheet.auto_update_cache,
        },
    )
}

impl ConfigSheet {
    /// The value the sheet holds for a setting.
    pub fn entry(&self, s: Setting) -> (r: &Option<String>)
        ensures
            entry_text(*r) == sheet_entry(*self, s),
    {
        match s {
            Setting::PinsToShow => &self.pins_to_show,
            Setting::TagsToShow => &self.tags_to_show,
            Setting::TagOnlySearch => &self.tag_only_search,
            Setting::FuzzySearch => &self.fuzzy_search,
            Setting::SharedNewPin => &self.shared_new_pin,
            Setting::ToreadNewPin => &self.toread_new_pin,
            Setting::SuggestTags => &self.suggest_tags,
            Setting::PageIsBookmarked => &self.page_is_bookmarked,
            Setting::ShowUrlVsTags => &self.show_url_vs_tags,
            Setting::AutoUpdateCache => &self.auto_update_cache,
        }
    }
}

/// The workflow's configuration.
pub struct Config {
    /// Which version of Alfred we are being executed under
    pub alfred_version: AlfredVersion,
    /// Number of bookmarks to show in Alfred
    pub pins_to_show: u8,
    /// Number of tags to show in Alfred
    pub tags_to_show: u8,
    /// Flag to perform search only on `tag` fields of bookmarks
    pub tag_only_search: bool,
    /// Flag to perform a fuzzy search
    pub fuzzy_search: bool,
    /// Flag to save bookmarks as private
    pub private_new_pin: bool,
    /// Flag to save bookmarks as toread
    pub toread_new_pin: bool,
    /// Flag to suggest popular tags for the browser's current url
    pub suggest_tags: bool,
    /// Flag to check if browser's page is already bookmarked
    pub page_is_bookmarked: bool,
    /// Flag to show either url or tags of current bookmark
    pub show_url_vs_tags: bool,
    /// Flag to update cache after each bookmark saving automatically.
    pub auto_update_cache: bool,
    /// Authentication Token. Read from an install that predates the move to
    /// the Keychain so it can be migrated; never written back to disk.
    pub auth_token: String,
    /// Last time cache was updated
    pub update_time: UpdateTime,
    /// Whether the one-time copy of these settings into Alfred's workflow
    /// configuration sheet has already happened.
    pub migrated_to_alfred_config: bool,
    /// Folder to store volatile data of the workflow
    pub workflow_data_dir: PathBuf,
    /// Folder to store data of the workflow
    pub workflow_cache_dir: PathBuf,
}

/// The values a fresh install, and Alfred's configuration sheet, start with.
pub const DEFAULT_PINS_TO_SHOW: u8 = 10;
pub const DEFAULT_TAGS_TO_SHOW: u8 = 10;
pub const DEFAULT_TAG_ONLY_SEARCH: bool = false;
pub const DEFAULT_FUZZY_SEARCH: bool = false;
pub const DEFAULT_PRIVATE_NEW_PIN: bool = true;
pub const DEFAULT_TOREAD_NEW_PIN: bool = false;
pub const DEFAULT_SUGGEST_TAGS: bool = false;
pub const DEFAULT_PAGE_IS_BOOKMARKED: bool = true;
pub const DEFAULT_SHOW_URL_VS_TAGS: bool = true;
pub const DEFAULT_AUTO_UPDATE_CACHE: bool = true;

impl Config {
    /// A fresh configuration with the shipped defaults, for the Alfred
    /// version text `alfred_version` (`None` where Alfred gave none) and the
    /// workflow's data and cache folders.
    pub fn new(alfred_version: Option<&str>, data_dir: PathBuf, cache_dir: PathBuf) -> (r: Config)
        ensures
            r.alfred_version@ == alfred_version_from(
                match alfred_version {
                    Some(s) => Some(s@),
                    None => None,
                },
            ),
            r.pins_to_show == DEFAULT_PINS_TO_SHOW,
            r.tags_to_show == DEFAULT_TAGS_TO_SHOW,
            r.tag_only_search == DEFAULT_TAG_ONLY_SEARCH,
            r.fuzzy_search == DEFAULT_FUZZY_SEARCH,
            r.private_new_pin == DEFAULT_PRIVATE_NEW_PIN,
            r.toread_new_pin == DEFAULT_TOREAD_NEW_PIN,
            r.suggest_tags == DEFAULT_SUGGEST_TAGS,
            r.page_is_bookmarked == DEFAULT_PAGE_IS_BOOKMARKED,
            r.show_url_vs_tags == DEFAULT_SHOW_URL_VS_TAGS,
            r.auto_update_cache == DEFAULT_AUTO_UPDATE_CACHE,
            r.auth_token@ == Seq::<char>::empty(),
            r.update_time == epoch(),
            r.migrated_to_alfred_config,
            r.workflow_data_dir == data_dir,
            r.workflow_cache_dir == cache_dir,
    {
        Config {
            alfred_version: get_alfred_version(alfred_version),
            pins_to_show: DEFAULT_PINS_TO_SHOW,
            tags_to_show: DEFAULT_TAGS_TO_SHOW,
            tag_only_search: DEFAULT_TAG_ONLY_SEARCH,
            fuzzy_search: DEFAULT_FUZZY_SEARCH,
            private_new_pin: DEFAULT_PRIVATE_NEW_PIN,
            toread_new_pin: DEFAULT_TOREAD_NEW_PIN,
            suggest_tags: DEFAULT_SUGGEST_TAGS,
            page_is_bookmarked: DEFAULT_PAGE_IS_BOOKMARKED,
            auto_update_cache: DEFAULT_AUTO_UPDATE_CACHE,
            show_url_vs_tags: DEFAULT_SHOW_URL_VS_TAGS,
            auth_token: String::new(),
            update_time: get_epoch(),
            // A fresh install has nothing to migrate: Alfred's configuration
            // sheet already holds the workflow's defaults.
            migrated_to_alfred_config: true,
            workflow_data_dir: data_dir,
            workflow_cache_dir: cache_dir,
        }
    }

    /// Points the configuration at the workflow's data and cache folders.
    pub fn discover_dirs(&mut self, data_dir: PathBuf, cache_dir: PathBuf)
        ensures
            *final(self) == (Config {
                workflow_data_dir: data_dir,
                workflow_cache_dir: cache_dir,
                ..*old(self)
            }),
    {
        self.workflow_data_dir = data_dir;
        self.workflow_cache_dir = cache_dir;
    }

    /// The folder for the workflow's cached data.
    pub fn cache_dir(&self) -> (r: &PathBuf)
        ensures
            *r == self.workflow_cache_dir,
    {
        &self.workflow_cache_dir
    }

    /// The folder for the workflow's data.
    pub fn data_dir(&self) -> (r: &PathBuf)
        ensures
            *r == self.workflow_data_dir,
    {
        &self.workflow_data_dir
    }

    /// Whether Alfred reads and writes items as JSON, which it does from
    /// version 3 on. Semver lets a pre-release version match only a
    /// requirement with a pre-release of its own, and the 5.0 early-access
    /// releases are pre-releases, hence the second requirement `>=5.0.0-E`.
    pub fn can_use_json(&self) -> (r: bool)
        ensures
            r == (semver_req_matches(">=3"@, self.alfred_version@) || semver_req_matches(
                ">=5.0.0-E"@,
                self.alfred_version@,
            )),
    {
        let version_3 = parse_version_req(">=3");
        let version_ea = parse_version_req(">=5.0.0-E");
        match (version_3, version_ea) {
            (Some(version_3), Some(version_ea)) => req_matches(&version_3, &self.alfred_version)
                || req_matches(&version_ea, &self.alfred_version),
            _ => {
                assert(false);
                false
            },
        }
    }
}

/// What a sheet value means for a checkbox setting.
pub open spec fn entry_bool(v: Option<Seq<char>>) -> Option<bool> {
    match v {
        Some(t) => parsed_bool(t),
        None => None,
    }
}

/// What a sheet value means for a row-count setting.
pub open spec fn entry_count(v: Option<Seq<char>>) -> Option<u8> {
    match v {
        Some(t) => parsed_count(t),
        None => None,
    }
}

/// A checkbox value from the sheet where it parses, else the stored one.
pub open spec fn bool_or(v: Option<Seq<char>>, stored: bool) -> bool {
    match entry_bool(v) {
        Some(b) => b,
        None => stored,
    }
}

/// A row count from the sheet where it parses, else the stored one.
pub open spec fn count_or(v: Option<Seq<char>>, stored: u8) -> u8 {
    match entry_count(v) {
        Some(n) => n,
        None => stored,
    }
}

/// `c` with the values of Alfred's configuration sheet laid over it. Each of
/// the ten preferences takes the sheet's value where that value parses and
/// keeps the stored one where it is missing or does not parse; the sheet asks
/// "share new bookmarks?", the inverse of `private_new_pin`. Nothing else
/// changes.
pub open spec fn overridden(c: Config, sheet: ConfigSheet) -> Config {
    Config {
        tag_only_search: bool_or(sheet_entry(sheet, Setting::TagOnlySearch), c.tag_only_search),
        fuzzy_search: bool_or(sheet_entry(sheet, Setting::FuzzySearch), c.fuzzy_search),
        private_new_pin: !bool_or(sheet_entry(sheet, Setting::SharedNewPin), !c.private_new_pin),
        toread_new_pin: bool_or(sheet_entry(sheet, Setting::ToreadNewPin), c.toread_new_pin),
        suggest_tags: bool_or(sheet_entry(sheet, Setting::SuggestTags), c.suggest_tags),
        page_is_bookmarked: bool_or(
            sheet_entry(sheet, Setting::PageIsBookmarked),
            c.page_is_bookmarked,
        ),
        show_url_vs_tags: bool_or(sheet_entry(sheet, Setting::ShowUrlVsTags), c.show_url_vs_tags),
        auto_update_cache: bool_or(
            sheet_entry(sheet, Setting::AutoUpdateCache),
            c.auto_update_cache,
        ),
        pins_to_show: count_or(sheet_entry(sheet, Setting::PinsToShow), c.pins_to_show),
        tags_to_show: count_or(sheet_entry(sheet, Setting::TagsToShow), c.tags_to_show),
        ..c
    }
}

/// What a sheet value means for a checkbox setting.
fn entry_as_bool(v: &Option<String>) -> (r: Option<bool>)
    ensures
        r == entry_bool(entry_text(*v)),
{
    match v {
        Some(t) => parse_bool(t.as_str()),
        None => None,
    }
}

/// What a sheet value means for a row-count setting.
fn entry_as_count(v: &Option<String>) -> (r: Option<u8>)
    ensures
        r == entry_count(entry_text(*v)),
{
    match v {
        Some(t) => parse_count(t.as_str()),
        None => None,
    }
}

/// A checkbox value from the sheet where it parses, else `stored`.
fn bool_override(v: &Option<String>, stored: bool) -> (r: bool)
    ensures
        r == bool_or(entry_text(*v), stored),
{
    match entry_as_bool(v) {
        Some(b) => b,
        None => stored,
    }
}

/// A row count from the sheet where it parses, else `stored`.
fn count_override(v: &Option<String>, stored: u8) -> (r: u8)
    ensures
        r == count_or(entry_text(*v), stored),
{
    match entry_as_count(v) {
        Some(n) => n,
        None => stored,
    }
}

impl Config {
    /// Overlay Alfred's workflow configuration on top of what was read from
    /// `settings.json`.
    ///
    /// Alfred 5 keeps user-settable options in the workflow's configuration
    /// sheet and hands them to every script as environment variables, so the
    /// sheet is the source of truth for these ten. A variable that is missing
    /// or unparseable leaves the stored value alone rather than snapping to a
    /// default, so a malformed entry degrades instead of resetting preferences.
    pub fn apply_env_overrides(&mut self, sheet: &ConfigSheet)
        ensures
            *final(self) == overridden(*old(self), *sheet),
    {
        self.tag_only_search = bool_override(&sheet.tag_only_search, self.tag_only_search);
        self.fuzzy_search = bool_override(&sheet.fuzzy_search, self.fuzzy_search);
        // The sheet asks "share new bookmarks?", which is the inverse of how
        // this is stored. Keep the question positive for the user and flip
        // here.
        self.private_new_pin = !bool_override(&sheet.shared_new_pin, !self.private_new_pin);
        self.toread_new_pin = bool_override(&sheet.toread_new_pin, self.toread_new_pin);
        self.suggest_tags = bool_override(&sheet.suggest_tags, self.suggest_tags);
        self.page_is_bookmarked = bool_override(&sheet.page_is_bookmarked, self.page_is_bookmarked);
        self.show_url_vs_tags = bool_override(&sheet.show_url_vs_tags, self.show_url_vs_tags);
        self.auto_update_cache = bool_override(&sheet.auto_update_cache, self.auto_update_cache);
        self.pins_to_show = count_override(&sheet.pins_to_show, self.pins_to_show);
        self.tags_to_show = count_override(&sheet.tags_to_show, self.tags_to_show);
    }
}

/// The value Alfred's configuration sheet ships with for a setting.
pub open spec fn default_text(s: Setting) -> Seq<char> {
    match s {
        Setting::PinsToShow => decimal(DEFAULT_PINS_TO_SHOW as nat),
        Setting::TagsToShow => decimal(DEFAULT_TAGS_TO_SHOW as nat),
        Setting::TagOnlySearch => bool_text(DEFAULT_TAG_ONLY_SEARCH),
        Setting::FuzzySearch => bool_text(DEFAULT_FUZZY_SEARCH),
        Setting::SharedNewPin => bool_text(!DEFAULT_PRIVATE_NEW_PIN),
        Setting::ToreadNewPin => bool_text(DEFAULT_TOREAD_NEW_PIN),
        Setting::SuggestTags => bool_text(DEFAULT_SUGGEST_TAGS),
        Setting::PageIsBookmarked => bool_text(DEFAULT_PAGE_IS_BOOKMARKED),
        Setting::ShowUrlVsTags => bool_text(DEFAULT_SHOW_URL_VS_TAGS),
        Setting::AutoUpdateCache => bool_text(DEFAULT_AUTO_UPDATE_CACHE),
    }
}

/// The value `c` holds for a setting, written as the sheet writes it.
pub open spec fn stored_text(c: Config, s: Setting) -> Seq<char> {
    match s {
        Setting::PinsToShow => decimal(c.pins_to_show as nat),
        Setting::TagsToShow => decimal(c.tags_to_show as nat),
        Setting::TagOnlySearch => bool_text(c.tag_only_search),
        Setting::FuzzySearch => bool_text(c.fuzzy_search),
        Setting::SharedNewPin => bool_text(!c.private_new_pin),
        Setting::ToreadNewPin => bool_text(c.toread_new_pin),
        Setting::SuggestTags => bool_text(c.suggest_tags),
        Setting::PageIsBookmarked => bool_text(c.page_is_bookmarked),
        Setting::ShowUrlVsTags => bool_text(c.show_url_vs_tags),
        Setting::AutoUpdateCache => bool_text(c.auto_update_cache),
    }
}

/// Whether the user has set a setting in the sheet: it holds a value that,
/// trimmed, differs from the value the sheet ships with. Alfred hands a value
/// for every key, since the sheet ships with defaults, so only a difference
/// shows a deliberate choice.
pub open spec fn customised(sheet: ConfigSheet, s: Setting) -> bool {
    match sheet_entry(sheet, s) {
        Some(v) => trim(v) != default_text(s),
        None => false,
    }
}

/// The AppleScript line that sets `key` to `value` in the sheet of workflow
/// `bundle`.
pub open spec fn config_line(key: Seq<char>, value: Seq<char>, bundle: Seq<char>) -> Seq<char> {
    "set configuration \""@ + key + "\" to value \""@ + value + "\" in workflow \""@ + bundle
        + "\"\n"@
}

/// The lines that copy `c`'s values of `settings` into the sheet, leaving
/// out the settings the user has set there.
pub open spec fn migration_lines(
    c: Config,
    bundle: Seq<char>,
    sheet: ConfigSheet,
    settings: Seq<Setting>,
) -> Seq<char>
    decreases settings.len(),
{
    if settings.len() == 0 {
        Seq::empty()
    } else {
        let rest = migration_lines(c, bundle, sheet, settings.drop_last());
        let s = settings.last();
        if customised(sheet, s) {
            rest
        } else {
            rest + config_line(key_text(s), stored_text(c, s), bundle)
        }
    }
}

/// How many of `settings` the migration writes.
pub open spec fn migrated_count(sheet: ConfigSheet, settings: Seq<Setting>) -> nat
    decreases settings.len(),
{
    if settings.len() == 0 {
        0
    } else {
        migrated_count(sheet, settings.drop_last()) + if customised(sheet, settings.last()) {
            0nat
        } else {
            1nat
        }
    }
}

/// The first line of the migration script.
pub open spec fn script_header() -> Seq<char> {
    "tell application id \"com.runningwithcrayons.Alfred\"\n"@
}

/// The AppleScript that copies `c`'s settings into the configuration sheet of
/// workflow `bundle`, or `None` where every setting has been set there
/// already and there is nothing to write.
pub open spec fn migration_script_text(c: Config, bundle: Seq<char>, sheet: ConfigSheet) -> Option<
    Seq<char>,
> {
    if migrated_count(sheet, all_settings()) == 0 {
        None
    } else {
        Some(script_header() + migration_lines(c, bundle, sheet, all_settings()) + "end tell"@)
    }
}

/// The value the sheet ships with for a setting.
fn default_value(s: Setting) -> (r: String)
    ensures
        r@ == default_text(s),
{
    match s {
        Setting::PinsToShow => u8_text(DEFAULT_PINS_TO_SHOW),
        Setting::TagsToShow => u8_text(DEFAULT_TAGS_TO_SHOW),
        Setting::TagOnlySearch => bool_str(DEFAULT_TAG_ONLY_SEARCH),
        Setting::FuzzySearch => bool_str(DEFAULT_FUZZY_SEARCH),
        Setting::SharedNewPin => bool_str(!DEFAULT_PRIVATE_NEW_PIN),
        Setting::ToreadNewPin => bool_str(DEFAULT_TOREAD_NEW_PIN),
        Setting::SuggestTags => bool_str(DEFAULT_SUGGEST_TAGS),
        Setting::PageIsBookmarked => bool_str(DEFAULT_PAGE_IS_BOOKMARKED),
        Setting::ShowUrlVsTags => bool_str(DEFAULT_SHOW_URL_VS_TAGS),
        Setting::AutoUpdateCache => bool_str(DEFAULT_AUTO_UPDATE_CACHE),
    }
}

/// Whether two character sequences are equal.
fn chars_equal(a: &Vec<char>, b: &Vec<char>) -> (r: bool)
    ensures
        r == (a@ == b@),
{
    if a.len() != b.len() {
        return false;
    }
    let mut i: usize = 0;
    while i < a.len()
        invariant
            i <= a@.len() == b@.len(),
            forall|j: int| 0 <= j < i ==> a@[j] == b@[j],
        decreases a@.len() - i,
    {
        if a[i] != b[i] {
            return false;
        }
        i = i + 1;
    }
    assert(a@ =~= b@);
    true
}

impl ConfigSheet {
    /// Whether the user has set `s` in the sheet.
    pub fn is_customised(&self, s: Setting) -> (r: bool)
        ensures
            r == customised(*self, s),
    {
        match self.entry(s) {
            Some(v) => {
                let current = trimmed_chars(v.as_str());
                let shipped = default_value(s);
                let shipped_chars = chars_of(shipped.as_str());
                !chars_equal(&current, &shipped_chars)
            },
            None => false,
        }
    }
}

impl Config {
    /// The value this configuration holds for a setting, written as the
    /// sheet writes it.
    pub fn stored_value(&self, s: Setting) -> (r: String)
        ensures
            r@ == stored_text(*self, s),
    {
        match s {
            Setting::PinsToShow => u8_text(self.pins_to_show),
            Setting::TagsToShow => u8_text(self.tags_to_show),
            Setting::TagOnlySearch => bool_str(self.tag_only_search),
            Setting::FuzzySearch => bool_str(self.fuzzy_search),
            // Stored inverted; see `apply_env_overrides`.
            Setting::SharedNewPin => bool_str(!self.private_new_pin),
            Setting::ToreadNewPin => bool_str(self.toread_new_pin),
            Setting::SuggestTags => bool_str(self.suggest_tags),
            Setting::PageIsBookmarked => bool_str(self.page_is_bookmarked),
            Setting::ShowUrlVsTags => bool_str(self.show_url_vs_tags),
            Setting::AutoUpdateCache => bool_str(self.auto_update_cache),
        }
    }

    /// The AppleScript that copies the settings that used to live in
    /// `settings.json` into Alfred's workflow configuration sheet of workflow
    /// `bundle_id`, given the values the sheet holds now; `None` where there
    /// is nothing to write.
    ///
    /// On upgrade the sheet starts out holding the workflow's defaults, so
    /// without this copy an existing user's preferences would silently reset.
    /// A value that already differs from the shipped default was chosen
    /// deliberately in the sheet and is not overwritten. All ten go into one
    /// script, so that `osascript` runs once.
    pub fn migration_script(&self, bundle_id: &str, sheet: &ConfigSheet) -> (r: Option<String>)
        ensures
            match r {
                Some(t) => migration_script_text(*self, bundle_id@, *sheet) == Some(t@),
                None => migration_script_text(*self, bundle_id@, *sheet) is None,
            },
    {
        let mut script = String::from_str("tell application id \"com.runningwithcrayons.Alfred\"\n");
        let mut wrote: usize = 0;
        let settings = Setting::all();
        let mut i: usize = 0;
        assert(all_settings().take(0) =~= Seq::<Setting>::empty());
        assert(script@ =~= script_header() + Seq::<char>::empty());
        while i < settings.len()
            invariant
                settings@ == all_settings(),
                i <= settings@.len(),
                wrote <= i,
                wrote == migrated_count(*sheet, all_settings().take(i as int)),
                script@ == script_header() + migration_lines(
                    *self,
                    bundle_id@,
                    *sheet,
                    all_settings().take(i as int),
                ),
            decreases settings@.len() - i,
        {
            let s = settings[i];
            let ghost before = script@;
            assert(all_settings().take(i + 1).drop_last() =~= all_settings().take(i as int));
            assert(all_settings().take(i + 1).last() == s);
            if !sheet.is_customised(s) {
                let stored = self.stored_value(s);
                script.append("set configuration \"");
                script.append(s.key());
                script.append("\" to value \"");
                script.append(stored.as_str());
                script.append("\" in workflow \"");
                script.append(bundle_id);
                script.append("\"\n");
                assert(script@ =~= before + config_line(key_text(s), stored_text(*self, s), bundle_id@));
                wrote = wrote + 1;
            }
            i = i + 1;
        }
        assert(all_settings().take(i as int) =~= all_settings());
        script.append("end tell");
        if wrote == 0 {
            None
        } else {
            Some(script)
        }
    }
}

/// What the workflow does next while it settles where the API token lives.
#[derive(PartialEq, Eq, Debug, Clone, Copy)]
pub enum TokenStep {
    /// Nothing more to do.
    Done,
    /// Store `auth_token` in the Keychain, then report the outcome to
    /// `token_stored`.
    StoreInKeychain,
    /// Rewrite `settings.json`, which drops the plaintext copy of the token.
    RewriteSettings,
}

/// The step that follows a Keychain lookup, for a configuration whose
/// `settings.json` held a plaintext token or not.
pub open spec fn token_step(plaintext: bool, in_keychain: bool) -> TokenStep {
    if in_keychain {
        if plaintext {
            TokenStep::RewriteSettings
        } else {
            TokenStep::Done
        }
    } else if plaintext {
        TokenStep::StoreInKeychain
    } else {
        TokenStep::Done
    }
}

/// What a configuration holds once the Keychain lookup gave
/// `from_keychain`: a token found there replaces whatever was read from
/// `settings.json`.
pub open spec fn with_keychain_token(c: Config, from_keychain: Option<String>) -> Config {
    match from_keychain {
        Some(t) => Config { auth_token: t, ..c },
        None => c,
    }
}

/// The step after an attempt to store the token in the Keychain: rewrite
/// `settings.json` once the Keychain holds it; otherwise keep the plaintext
/// copy so the workflow keeps working, and try again next run.
pub open spec fn after_store(stored: bool) -> TokenStep {
    if stored {
        TokenStep::RewriteSettings
    } else {
        TokenStep::Done
    }
}

/// The step after an attempt to store the token in the Keychain.
pub fn token_stored(stored: bool) -> (r: TokenStep)
    ensures
        r == after_store(stored),
{
    if stored {
        TokenStep::RewriteSettings
    } else {
        TokenStep::Done
    }
}

/// What the workflow does next while it starts up.
#[derive(PartialEq, Eq, Debug, Clone, Copy)]
pub enum SetupStep {
    /// Copy the stored settings into Alfred's configuration sheet, then
    /// report the outcome to `record_migration`. This run keeps the stored
    /// values.
    MigrateSheet,
    /// The configuration is ready to use.
    Ready,
}

/// What `setup` makes of a configuration: one still to be migrated is left
/// as it is, with the migration as the next step; otherwise the sheet's
/// values are laid over it and it is ready.
pub open spec fn setup_outcome(c: Config, sheet: ConfigSheet) -> (Config, SetupStep) {
    if c.migrated_to_alfred_config {
        (overridden(c, sheet), SetupStep::Ready)
    } else {
        (c, SetupStep::MigrateSheet)
    }
}

/// A configuration once the outcome of the migration is recorded.
pub open spec fn recorded(c: Config, succeeded: bool) -> Config {
    Config { migrated_to_alfred_config: c.migrated_to_alfred_config || succeeded, ..c }
}

impl Config {
    /// Resolve the API token, given what the Keychain holds
    /// (`from_keychain`), and say what to do next.
    ///
    /// Older installs kept the token in plaintext in the workflow's data
    /// directory. A token found in the Keychain wins. Otherwise a plaintext
    /// token is to be copied into the Keychain; once it is there,
    /// `settings.json` is rewritten, which removes the plaintext copy.
    pub fn resolve_token(&mut self, from_keychain: Option<String>) -> (r: TokenStep)
        ensures
            *final(self) == with_keychain_token(*old(self), from_keychain),
            r == token_step(old(self).auth_token@.len() > 0, from_keychain is Some),
    {
        let stored_in_plaintext = !self.auth_token.as_str().is_empty();
        match from_keychain {
            Some(token) => {
                self.auth_token = token;
                if stored_in_plaintext {
                    TokenStep::RewriteSettings
                } else {
                    TokenStep::Done
                }
            },
            None => if stored_in_plaintext {
                TokenStep::StoreInKeychain
            } else {
                TokenStep::Done
            },
        }
    }

    /// The last step of setting up a configuration read from
    /// `settings.json`, given the values of Alfred's configuration sheet.
    ///
    /// An install that predates the move to Alfred's configuration sheet has
    /// its preferences only in `settings.json`: they are to be pushed into the
    /// sheet first, and this run keeps the stored values, since the
    /// environment it was launched with predates the change. Otherwise the
    /// sheet's values are laid over the stored ones.
    pub fn setup(&mut self, sheet: &ConfigSheet) -> (r: SetupStep)
        ensures
            (*final(self), r) == setup_outcome(*old(self), *sheet),
    {
        if !self.migrated_to_alfred_config {
            return SetupStep::MigrateSheet;
        }
        self.apply_env_overrides(sheet);
        SetupStep::Ready
    }

    /// Records the outcome of copying the settings into Alfred's
    /// configuration sheet, and says whether `settings.json` is to be saved.
    /// The flag is only set when the copy succeeded, so a failed copy is
    /// retried next time.
    pub fn record_migration(&mut self, succeeded: bool) -> (save: bool)
        ensures
            *final(self) == recorded(*old(self), succeeded),
            save == succeeded,
    {
        if succeeded {
            self.migrated_to_alfred_config = true;
        }
        succeeded
    }
}

/// The outcome of running the migration script, from the reply of
/// `osascript`: on failure, what it wrote to standard error, trimmed.
pub fn migration_outcome(output: &CommandOutput) -> (r: Result<(), AlfredError>)
    ensures
        output.success ==> r is Ok,
        !output.success ==> (r matches Err(AlfredError::OsascriptError(m)) && m@ == trim(
            utf8_lossy(output.stderr@),
        )),
{
    if output.success {
        Ok(())
    } else {
        Err(AlfredError::OsascriptError(trimmed_output(output.stderr.as_slice())))
    }
}

/// A sheet that holds, for every setting, the value the migration writes for
/// it reads back as the stored configuration: migrating and then laying the
/// sheet over the configuration changes nothing.
pub proof fn law_migrated_sheet_reproduces_config(c: Config, sheet: ConfigSheet)
    requires
        forall|s: Setting| sheet_entry(sheet, s) == Some(#[trigger] stored_text(c, s)),
    ensures
        overridden(c, sheet) == c,
{
    assert(sheet_entry(sheet, Setting::PinsToShow) == Some(stored_text(c, Setting::PinsToShow)));
    assert(sheet_entry(sheet, Setting::TagsToShow) == Some(stored_text(c, Setting::TagsToShow)));
    assert(sheet_entry(sheet, Setting::TagOnlySearch) == Some(
        stored_text(c, Setting::TagOnlySearch),
    ));
    assert(sheet_entry(sheet, Setting::FuzzySearch) == Some(stored_text(c, Setting::FuzzySearch)));
    assert(sheet_entry(sheet, Setting::SharedNewPin) == Some(
        stored_text(c, Setting::SharedNewPin),
    ));
    assert(sheet_entry(sheet, Setting::ToreadNewPin) == Some(
        stored_text(c, Setting::ToreadNewPin),
    ));
    assert(sheet_entry(sheet, Setting::SuggestTags) == Some(stored_text(c, Setting::SuggestTags)));
    assert(sheet_entry(sheet, Setting::PageIsBookmarked) == Some(
        stored_text(c, Setting::PageIsBookmarked),
    ));
    assert(sheet_entry(sheet, Setting::ShowUrlVsTags) == Some(
        stored_text(c, Setting::ShowUrlVsTags),
    ));
    assert(sheet_entry(sheet, Setting::AutoUpdateCache) == Some(
        stored_text(c, Setting::AutoUpdateCache),
    ));
    law_bool_round_trip(c.tag_only_search);
    law_bool_round_trip(c.fuzzy_search);
    law_bool_round_trip(!c.private_new_pin);
    law_bool_round_trip(c.toread_new_pin);
    law_bool_round_trip(c.suggest_tags);
    law_bool_round_trip(c.page_is_bookmarked);
    law_bool_round_trip(c.show_url_vs_tags);
    law_bool_round_trip(c.auto_update_cache);
    lemma_count_text_reads_back(c.pins_to_show);
    lemma_count_text_reads_back(c.tags_to_show);
    assert(overridden(c, sheet) =~= c);
}

/// The decimal text of a row count reads back as that count, or as no value
/// where the count is zero.
proof fn lemma_count_text_reads_back(n: u8)
    ensures
        count_or(Some(decimal(n as nat)), n) == n,
{
    if n > 0 {
        law_count_round_trip(n);
    } else {
        lemma_decimal_digits(0);
        lemma_trim_unchanged(decimal(0));
    }
}

/// How many of `settings` the migration writes is zero exactly when the user
/// has set every one of them in the sheet.
proof fn lemma_migrated_count_zero(sheet: ConfigSheet, settings: Seq<Setting>)
    ensures
        migrated_count(sheet, settings) == 0 <==> forall|i: int|
            0 <= i < settings.len() ==> customised(sheet, #[trigger] settings[i]),
    decreases settings.len(),
{
    if settings.len() > 0 {
        lemma_migrated_count_zero(sheet, settings.drop_last());
        if migrated_count(sheet, settings) == 0 {
            assert forall|i: int| 0 <= i < settings.len() implies customised(
                sheet,
                #[trigger] settings[i],
            ) by {
                if i < settings.len() - 1 {
                    assert(settings.drop_last()[i] == settings[i]);
                }
            }
        }
        if forall|i: int| 0 <= i < settings.len() ==> customised(sheet, #[trigger] settings[i]) {
            assert forall|i: int| 0 <= i < settings.drop_last().len() implies customised(
                sheet,
                #[trigger] settings.drop_last()[i],
            ) by {
                assert(settings.drop_last()[i] == settings[i]);
            }
            assert(customised(sheet, settings[settings.len() - 1]));
        }
    }
}

/// The migration has nothing to write, and `osascript` is not run, exactly
/// when the user has already set every setting in the sheet.
pub proof fn law_nothing_to_migrate(c: Config, bundle: Seq<char>, sheet: ConfigSheet)
    ensures
        migration_script_text(c, bundle, sheet) is None <==> forall|s: Setting|
            customised(sheet, s),
{
    lemma_migrated_count_zero(sheet, all_settings());
    if forall|i: int|
        0 <= i < all_settings().len() ==> customised(sheet, #[trigger] all_settings()[i]) {
        assert forall|s: Setting| customised(sheet, s) by {
            match s {
                Setting::TagOnlySearch => assert(all_settings()[0] == s),
                Setting::FuzzySearch => assert(all_settings()[1] == s),
                Setting::SharedNewPin => assert(all_settings()[2] == s),
                Setting::ToreadNewPin => assert(all_settings()[3] == s),
                Setting::SuggestTags => assert(all_settings()[4] == s),
                Setting::PageIsBookmarked => assert(all_settings()[5] == s),
                Setting::ShowUrlVsTags => assert(all_settings()[6] == s),
                Setting::AutoUpdateCache => assert(all_settings()[7] == s),
                Setting::PinsToShow => assert(all_settings()[8] == s),
                Setting::TagsToShow => assert(all_settings()[9] == s),
            }
        }
    }
}

/// A fresh configuration holds, for every setting, exactly the value
/// Alfred's configuration sheet ships with.
pub proof fn law_fresh_config_matches_shipped_defaults(c: Config)
    requires
        c.pins_to_show == DEFAULT_PINS_TO_SHOW,
        c.tags_to_show == DEFAULT_TAGS_TO_SHOW,
        c.tag_only_search == DEFAULT_TAG_ONLY_SEARCH,
        c.fuzzy_search == DEFAULT_FUZZY_SEARCH,
        c.private_new_pin == DEFAULT_PRIVATE_NEW_PIN,
        c.toread_new_pin == DEFAULT_TOREAD_NEW_PIN,
        c.suggest_tags == DEFAULT_SUGGEST_TAGS,
        c.page_is_bookmarked == DEFAULT_PAGE_IS_BOOKMARKED,
        c.show_url_vs_tags == DEFAULT_SHOW_URL_VS_TAGS,
        c.auto_update_cache == DEFAULT_AUTO_UPDATE_CACHE,
    ensures
        forall|s: Setting| #[trigger] stored_text(c, s) == default_text(s),
{
}

/// `settings.json` is rewritten, which drops the plaintext copy of the
/// token, only once the Keychain holds the token: either it was found there,
/// or storing it there succeeded. A plaintext token that is not in the
/// Keychain is always offered to it, and a failed store keeps the plaintext
/// copy.
pub proof fn law_plaintext_dropped_only_when_in_keychain(
    plaintext: bool,
    in_keychain: bool,
    stored: bool,
)
    ensures
        token_step(plaintext, in_keychain) == TokenStep::RewriteSettings ==> in_keychain
            && plaintext,
        token_step(plaintext, in_keychain) == TokenStep::StoreInKeychain <==> !in_keychain
            && plaintext,
        after_store(stored) == TokenStep::RewriteSettings <==> stored,
{
}

/// The migration into Alfred's configuration sheet is asked for on every run
/// until its success is recorded, and never again after that; a run that
/// asks for it keeps the stored values.
pub proof fn law_migration_until_recorded(c: Config, sheet: ConfigSheet, succeeded: bool)
    ensures
        !c.migrated_to_alfred_config ==> setup_outcome(c, sheet) == (c, SetupStep::MigrateSheet),
        !c.migrated_to_alfred_config && !succeeded ==> setup_outcome(
            recorded(c, succeeded),
            sheet,
        ).1 == SetupStep::MigrateSheet,
        succeeded ==> setup_outcome(recorded(c, succeeded), sheet).1 == SetupStep::Ready,
        c.migrated_to_alfred_config ==> setup_outcome(c, sheet).0.migrated_to_alfred_config,
{
}

/// Whether the sheet's value for a setting is missing or does not parse.
pub open spec fn unusable(sheet: ConfigSheet, s: Setting) -> bool {
    match s {
        Setting::PinsToShow | Setting::TagsToShow => entry_count(sheet_entry(sheet, s)) is None,
        _ => entry_bool(sheet_entry(sheet, s)) is None,
    }
}

/// A value that Alfred does not supply, or that cannot be parsed, leaves the
/// stored setting untouched rather than falling back to a default: a sheet
/// with no usable value changes nothing.
pub proof fn law_unusable_values_keep_stored(c: Config, sheet: ConfigSheet)
    requires
        forall|s: Setting| #[trigger] unusable(sheet, s),
    ensures
        overridden(c, sheet) == c,
{
    assert(unusable(sheet, Setting::PinsToShow));
    assert(unusable(sheet, Setting::TagsToShow));
    assert(unusable(sheet, Setting::TagOnlySearch));
    assert(unusable(sheet, Setting::FuzzySearch));
    assert(unusable(sheet, Setting::SharedNewPin));
    assert(unusable(sheet, Setting::ToreadNewPin));
    assert(unusable(sheet, Setting::SuggestTags));
    assert(unusable(sheet, Setting::PageIsBookmarked));
    assert(unusable(sheet, Setting::ShowUrlVsTags));
    assert(unusable(sheet, Setting::AutoUpdateCache));
    assert(overridden(c, sheet) =~= c);
}


/// Whether `result` is what a checkbox ends up as when the sheet holds
/// `entry` and the stored value is `stored`: the sheet's value where it
/// parses as a boolean, the stored value otherwise.
pub open spec fn takes_bool(entry: Option<String>, stored: bool, result: bool) -> bool {
    match entry {
        Some(v) => match parsed_bool(v@) {
            Some(b) => result == b,
            None => result == stored,
        },
        None => result == stored,
    }
}

/// Whether `result` is what a row count ends up as when the sheet holds
/// `entry` and the stored value is `stored`: the sheet's value where it
/// parses as a nonzero count, the stored value otherwise.
pub open spec fn takes_count(entry: Option<String>, stored: u8, result: u8) -> bool {
    match entry {
        Some(v) => match parsed_count(v@) {
            Some(n) => result == n,
            None => result == stored,
        },
        None => result == stored,
    }
}

/// Whether `o` is `c` with the sheet laid over it: every preference takes the
/// sheet's value where it parses and keeps the stored one otherwise, "share
/// new bookmarks" standing for the negation of `private_new_pin`, and
/// nothing else differs.
pub open spec fn laid_over(c: Config, sheet: ConfigSheet, o: Config) -> bool {
    &&& takes_count(sheet.pins_to_show, c.pins_to_show, o.pins_to_show)
    &&& takes_count(sheet.tags_to_show, c.tags_to_show, o.tags_to_show)
    &&& takes_bool(sheet.tag_only_search, c.tag_only_search, o.tag_only_search)
    &&& takes_bool(sheet.fuzzy_search, c.fuzzy_search, o.fuzzy_search)
    &&& takes_bool(sheet.shared_new_pin, !c.private_new_pin, !o.private_new_pin)
    &&& takes_bool(sheet.toread_new_pin, c.toread_new_pin, o.toread_new_pin)
    &&& takes_bool(sheet.suggest_tags, c.suggest_tags, o.suggest_tags)
    &&& takes_bool(sheet.page_is_bookmarked, c.page_is_bookmarked, o.page_is_bookmarked)
    &&& takes_bool(sheet.show_url_vs_tags, c.show_url_vs_tags, o.show_url_vs_tags)
    &&& takes_bool(sheet.auto_update_cache, c.auto_update_cache, o.auto_update_cache)
    &&& o.alfred_version == c.alfred_version
    &&& o.auth_token == c.auth_token
    &&& o.update_time == c.update_time
    &&& o.migrated_to_alfred_config == c.migrated_to_alfred_config
    &&& o.workflow_data_dir == c.workflow_data_dir
    &&& o.workflow_cache_dir == c.workflow_cache_dir
}

/// Laying the sheet over the stored settings gives each preference the
/// sheet's value wherever that value parses, whatever was stored (a lower
/// row count too, and an unticked "share new bookmarks" making new bookmarks
/// private), and the stored value wherever it is missing or does not parse.
pub proof fn law_sheet_values_win(c: Config, sheet: ConfigSheet)
    ensures
        laid_over(c, sheet, overridden(c, sheet)),
{
}

/// Whenever the sheet's "share new bookmarks" value parses as `b`, new
/// bookmarks end up private exactly when `b` is false.
pub proof fn law_shared_is_inverse_of_private(c: Config, sheet: ConfigSheet, v: String, b: bool)
    requires
        sheet.shared_new_pin == Some(v),
        parsed_bool(v@) == Some(b),
    ensures
        overridden(c, sheet).private_new_pin == !b,
        setup_outcome(c, sheet).0.private_new_pin == (if c.migrated_to_alfred_config {
            !b
        } else {
            c.private_new_pin
        }),
{
}

/// Whenever the sheet's row count parses as `n`, the configuration shows `n`
/// rows, whether `n` is above or below what was stored.
pub proof fn law_sheet_count_wins(c: Config, sheet: ConfigSheet, v: String, n: u8)
    requires
        sheet.pins_to_show == Some(v) || sheet.tags_to_show == Some(v),
        parsed_count(v@) == Some(n),
    ensures
        sheet.pins_to_show == Some(v) ==> overridden(c, sheet).pins_to_show == n,
        sheet.tags_to_show == Some(v) ==> overridden(c, sheet).tags_to_show == n,
{
}

/// Setting up a configuration that has been migrated already is ready at
/// once, with the sheet laid over every one of the ten preferences; one that
/// has not keeps its stored values and asks for the migration.
pub proof fn law_setup_lays_sheet_over(c: Config, sheet: ConfigSheet)
    ensures
        c.migrated_to_alfred_config ==> setup_outcome(c, sheet).1 == SetupStep::Ready && laid_over(
            c,
            sheet,
            setup_outcome(c, sheet).0,
        ),
        !c.migrated_to_alfred_config ==> setup_outcome(c, sheet) == (c, SetupStep::MigrateSheet),
{
}

/// `char::to_ascii_uppercase`.
pub open spec fn ascii_uppercase(c: char) -> char {
    if 'a' <= c <= 'z' {
        ((c as u32) - 32) as char
    } else {
        c
    }
}

/// Lowercasing commutes with trimming: letters are never whitespace.
proof fn lemma_trim_lowercase(s: Seq<char>)
    ensures
        trim(to_ascii_lowercase(s)) == to_ascii_lowercase(trim(s)),
{
    lemma_trim_start_lowercase(s);
    lemma_trim_end_lowercase(trim_start(s));
}

proof fn lemma_trim_start_lowercase(s: Seq<char>)
    ensures
        trim_start(to_ascii_lowercase(s)) == to_ascii_lowercase(trim_start(s)),
    decreases s.len(),
{
    if s.len() > 0 {
        assert(to_ascii_lowercase(s)[0] == ascii_lowercase(s[0]));
        assert(to_ascii_lowercase(s).drop_first() =~= to_ascii_lowercase(s.drop_first()));
        if is_whitespace(s[0]) {
            lemma_trim_start_lowercase(s.drop_first());
        }
    } else {
        assert(to_ascii_lowercase(s) =~= s);
    }
}

proof fn lemma_trim_end_lowercase(s: Seq<char>)
    ensures
        trim_end(to_ascii_lowercase(s)) == to_ascii_lowercase(trim_end(s)),
    decreases s.len(),
{
    if s.len() > 0 {
        assert(to_ascii_lowercase(s).last() == ascii_lowercase(s.last()));
        assert(to_ascii_lowercase(s).drop_last() =~= to_ascii_lowercase(s.drop_last()));
        if is_whitespace(s.last()) {
            lemma_trim_end_lowercase(s.drop_last());
        }
    } else {
        assert(to_ascii_lowercase(s) =~= s);
    }
}

/// Checkbox values are read without regard to ASCII case: two values that
/// differ only in the case of ASCII letters read the same, and upper-casing
/// a value changes nothing (so `YES`, `Yes` and `yes` all read as `true`).
pub proof fn law_parse_bool_ignores_case(s1: Seq<char>, s2: Seq<char>)
    ensures
        to_ascii_lowercase(s1) == to_ascii_lowercase(s2) ==> parsed_bool(s1) == parsed_bool(s2),
        parsed_bool(s1.map_values(|c: char| ascii_uppercase(c))) == parsed_bool(s1),
{
    lemma_trim_lowercase(s1);
    lemma_trim_lowercase(s2);
    let u = s1.map_values(|c: char| ascii_uppercase(c));
    assert(to_ascii_lowercase(u) =~= to_ascii_lowercase(s1));
    lemma_trim_lowercase(u);
    assert(to_ascii_lowercase(to_ascii_lowercase(trim(s1))) =~= to_ascii_lowercase(trim(s1)));
    assert(to_ascii_lowercase(to_ascii_lowercase(trim(s2))) =~= to_ascii_lowercase(trim(s2)));
    assert(to_ascii_lowercase(to_ascii_lowercase(trim(u))) =~= to_ascii_lowercase(trim(u)));
}

/// Whether the sheet still holds what it shipped with for `s`: no value, or
/// one that, trimmed, is the shipped default text.
pub open spec fn at_shipped_default(sheet: ConfigSheet, s: Setting) -> bool {
    match sheet_entry(sheet, s) {
        Some(v) => trim(v) == default_text(s),
        None => true,
    }
}

/// The lines that set each of `settings` still at its shipped default to the
/// stored value, in order.
pub open spec fn default_setting_lines(
    c: Config,
    bundle: Seq<char>,
    sheet: ConfigSheet,
    settings: Seq<Setting>,
) -> Seq<char>
    decreases settings.len(),
{
    if settings.len() == 0 {
        Seq::empty()
    } else {
        default_setting_lines(c, bundle, sheet, settings.drop_last()) + if at_shipped_default(
            sheet,
            settings.last(),
        ) {
            config_line(key_text(settings.last()), stored_text(c, settings.last()), bundle)
        } else {
            Seq::empty()
        }
    }
}

proof fn lemma_migration_lines_are_default_lines(
    c: Config,
    bundle: Seq<char>,
    sheet: ConfigSheet,
    settings: Seq<Setting>,
)
    ensures
        migration_lines(c, bundle, sheet, settings) == default_setting_lines(
            c,
            bundle,
            sheet,
            settings,
        ),
        migrated_count(sheet, settings) == 0 <==> forall|i: int|
            0 <= i < settings.len() ==> !at_shipped_default(sheet, #[trigger] settings[i]),
    decreases settings.len(),
{
    lemma_migrated_count_zero(sheet, settings);
    if settings.len() > 0 {
        lemma_migration_lines_are_default_lines(c, bundle, sheet, settings.drop_last());
        assert(customised(sheet, settings.last()) == !at_shipped_default(sheet, settings.last()));
        assert forall|i: int| 0 <= i < settings.len() implies customised(
            sheet,
            #[trigger] settings[i],
        ) == !at_shipped_default(sheet, settings[i]) by {}
    }
}

/// The migration writes, in order, exactly the settings the sheet still
/// holds at their shipped default (Alfred hands a value for every key, so
/// only a value that differs from the default, once trimmed, is the user's
/// own choice and is kept); each such setting is set to the stored value. It
/// writes nothing, and `osascript` is not run, when none is at its default.
pub proof fn law_migration_copies_settings_at_default(
    c: Config,
    bundle: Seq<char>,
    sheet: ConfigSheet,
)
    ensures
        (forall|i: int|
            0 <= i < all_settings().len() ==> !at_shipped_default(
                sheet,
                #[trigger] all_settings()[i],
            )) ==> migration_script_text(c, bundle, sheet) is None,
        (exists|i: int|
            0 <= i < all_settings().len() && at_shipped_default(
                sheet,
                #[trigger] all_settings()[i],
            )) ==> migration_script_text(c, bundle, sheet) == Some(
            script_header() + default_setting_lines(c, bundle, sheet, all_settings())
                + "end tell"@,
        ),
{
    lemma_migration_lines_are_default_lines(c, bundle, sheet, all_settings());
}

/// A sheet as Alfred hands it on upgrade, every value at its shipped
/// default, gets every one of the ten settings copied from the stored
/// configuration, in order.
#[verifier::rlimit(100)]
pub proof fn law_migration_of_untouched_sheet(c: Config, bundle: Seq<char>, sheet: ConfigSheet)
    requires
        forall|s: Setting| #[trigger] at_shipped_default(sheet, s),
    ensures
        migration_script_text(c, bundle, sheet) == Some(
            script_header() + (Seq::<char>::empty() + config_line(
                "tag_only_search"@,
                bool_text(c.tag_only_search),
                bundle,
            ) + config_line("fuzzy_search"@, bool_text(c.fuzzy_search), bundle) + config_line(
                "shared_new_pin"@,
                bool_text(!c.private_new_pin),
                bundle,
            ) + config_line("toread_new_pin"@, bool_text(c.toread_new_pin), bundle)
                + config_line("suggest_tags"@, bool_text(c.suggest_tags), bundle) + config_line(
                "page_is_bookmarked"@,
                bool_text(c.page_is_bookmarked),
                bundle,
            ) + config_line("show_url_vs_tags"@, bool_text(c.show_url_vs_tags), bundle)
                + config_line("auto_update_cache"@, bool_text(c.auto_update_cache), bundle)
                + config_line("pins_to_show"@, decimal(c.pins_to_show as nat), bundle)
                + config_line("tags_to_show"@, decimal(c.tags_to_show as nat), bundle))
                + "end tell"@,
        ),
{
    let all = all_settings();
    assert(at_shipped_default(sheet, all[0]));
    law_migration_copies_settings_at_default(c, bundle, sheet);
    assert(all.take(10) =~= all);
    lemma_default_lines_step(c, bundle, sheet, 0);
    lemma_default_lines_step(c, bundle, sheet, 1);
    lemma_default_lines_step(c, bundle, sheet, 2);
    lemma_default_lines_step(c, bundle, sheet, 3);
    lemma_default_lines_step(c, bundle, sheet, 4);
    lemma_default_lines_step(c, bundle, sheet, 5);
    lemma_default_lines_step(c, bundle, sheet, 6);
    lemma_default_lines_step(c, bundle, sheet, 7);
    lemma_default_lines_step(c, bundle, sheet, 8);
    lemma_default_lines_step(c, bundle, sheet, 9);
    assert(default_setting_lines(c, bundle, sheet, all.take(0)) == Seq::<char>::empty());
}

/// One more setting at its shipped default adds its line.
proof fn lemma_default_lines_step(c: Config, bundle: Seq<char>, sheet: ConfigSheet, k: int)
    requires
        0 <= k < 10,
        forall|s: Setting| #[trigger] at_shipped_default(sheet, s),
    ensures
        default_setting_lines(c, bundle, sheet, all_settings().take(k + 1)) == default_setting_lines(
            c,
            bundle,
            sheet,
            all_settings().take(k),
        ) + config_line(key_text(all_settings()[k]), stored_text(c, all_settings()[k]), bundle),
{
    let all = all_settings();
    assert(all.take(k + 1).drop_last() =~= all.take(k));
    assert(all.take(k + 1).last() == all[k]);
    assert(at_shipped_default(sheet, all[k]));
}


/// Surrounding whitespace never changes how a sheet value is read.
pub proof fn law_values_read_trimmed(s: Seq<char>)
    ensures
        parsed_bool(trim(s)) == parsed_bool(s),
        parsed_count(trim(s)) == parsed_count(s),
{
    lemma_trim_idempotent(s);
}

} // verus!
