//! User-level codex-ws configuration: the supported keys, their values, and the
//! default locations under the user's home directory.

use vstd::prelude::*;
use vstd::string::*;

use crate::text::{
    has_prefix, is_blank, is_blank_spec, join_path, join_path_spec, opt_string_view, str_equal,
    to_owned_string, trim, trim_spec,
};
use crate::workspace::home_dir;

verus! {

/// Configuration key that stores the cc-switch SQLite database path.
pub const CC_SWITCH_DB: &'static str = "cc-switch-db";

/// File name of the user configuration under the config directory.
pub const CONFIG_FILE_NAME: &'static str = "config.json";

/// A persisted user configuration entry.
#[derive(Debug, Clone, PartialEq, Eq)]
pub struct ConfigEntry {
    name: String,
    value: String,
}

/// Mathematical model of a [`ConfigEntry`].
pub struct ConfigEntryView {
    pub name: Seq<char>,
    pub value: Seq<char>,
}

impl View for ConfigEntry {
    type V = ConfigEntryView;

    closed spec fn view(&self) -> ConfigEntryView {
        ConfigEntryView { name: self.name@, value: self.value@ }
    }
}

impl ConfigEntry {
    /// Create a configuration entry.
    pub fn new(name: String, value: String) -> (r: Self)
        ensures
            r@ == (ConfigEntryView { name: name@, value: value@ }),
    {
        Self { name, value }
    }

    /// Return the configuration key.
    pub fn name(&self) -> (r: &str)
        ensures
            r@ == self@.name,
    {
        self.name.as_str()
    }

    /// Return the configuration value.
    pub fn value(&self) -> (r: &str)
        ensures
            r@ == self@.value,
    {
        self.value.as_str()
    }
}

/// Errors returned while reading or writing user configuration.
#[derive(Debug)]
pub enum ConfigError {
    /// The operating system did not expose a usable home directory.
    MissingHomeDirectory,
    /// The requested configuration key is not supported.
    UnsupportedConfigName {
        /// User-provided configuration key.
        name: String,
        /// Comma-separated supported configuration keys.
        supported: &'static str,
    },
    /// The configuration file could not be read or written.
    Io(std::io::Error),
    /// The configuration file contained invalid JSON.
    Json(serde_json::Error),
    /// The system clock cannot be used to create a unique temporary file name.
    InvalidSystemClock,
}

impl ConfigError {
    /// The human-readable description of this error.
    pub fn message(&self) -> (r: String)
        ensures
            match self {
                ConfigError::MissingHomeDirectory => r@ == "failed to resolve user home directory"@,
                ConfigError::UnsupportedConfigName { name, supported } => r@
                    == "unsupported config name '"@ + name@ + "'; supported config names: "@
                    + supported@,
                ConfigError::Io(_) => has_prefix(r@, "configuration file error: "@),
                ConfigError::Json(_) => has_prefix(r@, "configuration JSON error: "@),
                ConfigError::InvalidSystemClock => r@ == "system clock is before the Unix epoch"@,
            },
    {
        match self {
            ConfigError::MissingHomeDirectory => String::from_str(
                "failed to resolve user home directory",
            ),
            ConfigError::UnsupportedConfigName { name, supported } => {
                let mut out = String::from_str("unsupported config name '");
                out.append(name.as_str());
                out.append("'; supported config names: ");
                out.append(supported);
                out
            },
            ConfigError::Io(e) => {
                let mut out = String::from_str("configuration file error: ");
                let ghost head = out@;
                let detail = e.to_string();
                out.append(detail.as_str());
                assert(out@.subrange(0, head.len() as int) =~= head);
                out
            },
            ConfigError::Json(e) => {
                let mut out = String::from_str("configuration JSON error: ");
                let ghost head = out@;
                let detail = e.to_string();
                out.append(detail.as_str());
                assert(out@.subrange(0, head.len() as int) =~= head);
                out
            },
            ConfigError::InvalidSystemClock => String::from_str(
                "system clock is before the Unix epoch",
            ),
        }
    }
}

/// User-level codex-ws configuration.
#[derive(Debug, Clone, PartialEq, Eq)]
pub struct UserConfig {
    cc_switch_db: Option<String>,
}

/// Mathematical model of a [`UserConfig`].
pub struct UserConfigView {
    pub cc_switch_db: Option<Seq<char>>,
}

impl View for UserConfig {
    type V = UserConfigView;

    closed spec fn view(&self) -> UserConfigView {
        UserConfigView { cc_switch_db: opt_string_view(self.cc_switch_db) }
    }
}

/// The configuration keys that codex-ws supports.
pub open spec fn supported_config_name(name: Seq<char>) -> bool {
    name == CC_SWITCH_DB@
}

/// The configuration after setting `name` to `value`: a supported key takes the
/// value, and an unsupported key leaves the configuration unchanged.
pub open spec fn config_set_spec(c: UserConfigView, name: Seq<char>, value: Seq<char>) -> UserConfigView {
    if supported_config_name(name) {
        UserConfigView { cc_switch_db: Some(value) }
    } else {
        c
    }
}

/// The entry a supported key currently has, if it is set.
pub open spec fn config_get_spec(c: UserConfigView, name: Seq<char>) -> Option<ConfigEntryView> {
    if supported_config_name(name) {
        match c.cc_switch_db {
            Some(v) => Some(ConfigEntryView { name: CC_SWITCH_DB@, value: v }),
            None => None,
        }
    } else {
        None
    }
}

/// Every set entry, in stable key order.
pub open spec fn config_entries_spec(c: UserConfigView) -> Seq<ConfigEntryView> {
    match c.cc_switch_db {
        Some(v) => seq![ConfigEntryView { name: CC_SWITCH_DB@, value: v }],
        None => Seq::empty(),
    }
}

/// The models of a sequence of configuration entries.
pub open spec fn config_entries_view(v: Seq<ConfigEntry>) -> Seq<ConfigEntryView> {
    Seq::new(v.len(), |i: int| v[i]@)
}

/// `e` reports `name` as an unsupported key.
pub open spec fn unsupported_name_error(name: Seq<char>, e: ConfigError) -> bool {
    e matches ConfigError::UnsupportedConfigName { name: n, supported } && n@ == name && supported@
        == CC_SWITCH_DB@
}

#[derive(Debug, Clone, Copy, PartialEq, Eq, Structural)]
enum ConfigName {
    CcSwitchDbRoute,
}

fn parse_config_name(name: &str) -> (r: Result<ConfigName, ConfigError>)
    ensures
        r is Ok <==> supported_config_name(name@),
        r matches Err(e) ==> unsupported_name_error(name@, e),
{
    if str_equal(name, CC_SWITCH_DB) {
        Ok(ConfigName::CcSwitchDbRoute)
    } else {
        Err(ConfigError::UnsupportedConfigName { name: to_owned_string(name), supported: CC_SWITCH_DB })
    }
}

impl UserConfig {
    /// Return the configured cc-switch database path.
    pub fn cc_switch_db(&self) -> (r: Option<&str>)
        ensures
            r is None <==> self@.cc_switch_db is None,
            r matches Some(s) ==> self@.cc_switch_db == Some(s@),
    {
        match &self.cc_switch_db {
            Some(s) => Some(s.as_str()),
            None => None,
        }
    }

    /// Set a supported configuration value.
    ///
    /// Fails with [`ConfigError::UnsupportedConfigName`], leaving the
    /// configuration unchanged, when `name` is not supported.
    pub fn set_value(&mut self, name: &str, value: String) -> (r: Result<(), ConfigError>)
        ensures
            r is Ok <==> supported_config_name(name@),
            final(self)@ == config_set_spec(old(self)@, name@, value@),
            r matches Err(e) ==> unsupported_name_error(name@, e),
    {
        match parse_config_name(name) {
            Ok(ConfigName::CcSwitchDbRoute) => {
                self.cc_switch_db = Some(value);
                Ok(())
            },
            Err(e) => Err(e),
        }
    }

    /// Return one supported configuration value.
    ///
    /// Fails with [`ConfigError::UnsupportedConfigName`] when `name` is not supported.
    pub fn get_value(&self, name: &str) -> (r: Result<Option<ConfigEntry>, ConfigError>)
        ensures
            r is Ok <==> supported_config_name(name@),
            r matches Ok(o) ==> (o is None <==> config_get_spec(self@, name@) is None),
            r matches Ok(Some(e)) ==> config_get_spec(self@, name@) == Some(e@),
            r matches Err(e) ==> unsupported_name_error(name@, e),
    {
        match parse_config_name(name) {
            Ok(ConfigName::CcSwitchDbRoute) => match &self.cc_switch_db {
                Some(value) => Ok(
                    Some(ConfigEntry::new(to_owned_string(CC_SWITCH_DB), to_owned_string(value.as_str()))),
                ),
                None => Ok(None),
            },
            Err(e) => Err(e),
        }
    }

    /// Return all configured values in stable key order.
    pub fn entries(&self) -> (r: Vec<ConfigEntry>)
        ensures
            config_entries_view(r@) == config_entries_spec(self@),
    {
        let mut out: Vec<ConfigEntry> = Vec::new();
        match &self.cc_switch_db {
            Some(value) => {
                out.push(
                    ConfigEntry::new(to_owned_string(CC_SWITCH_DB), to_owned_string(value.as_str())),
                );
            },
            None => {},
        }
        assert(config_entries_view(out@) =~= config_entries_spec(self@));
        out
    }
}

impl Default for UserConfig {
    fn default() -> (r: Self)
        ensures
            r@.cc_switch_db is None,
    {
        Self { cc_switch_db: None }
    }
}

/// Proof that a value set under a supported key is what a later lookup of that
/// key returns, and that it becomes the only listed entry.
pub proof fn lemma_set_then_get(c: UserConfigView, name: Seq<char>, value: Seq<char>)
    requires
        supported_config_name(name),
    ensures
        config_get_spec(config_set_spec(c, name, value), name) == Some(
            ConfigEntryView { name: CC_SWITCH_DB@, value },
        ),
        config_entries_spec(config_set_spec(c, name, value)) == seq![
            ConfigEntryView { name: CC_SWITCH_DB@, value },
        ],
{
}

/// Proof that setting an unsupported key changes nothing, and that looking it up finds nothing.
pub proof fn lemma_unsupported_name_is_inert(c: UserConfigView, name: Seq<char>, value: Seq<char>)
    requires
        !supported_config_name(name),
    ensures
        config_set_spec(c, name, value) == c,
        config_get_spec(c, name) is None,
{
}

/// Proof that the listed entries are exactly the entries that lookups return.
pub proof fn lemma_entries_match_lookups(c: UserConfigView)
    ensures
        config_entries_spec(c).len() <= 1,
        config_get_spec(c, CC_SWITCH_DB@) is Some <==> config_entries_spec(c).len() == 1,
        config_get_spec(c, CC_SWITCH_DB@) matches Some(e) ==> config_entries_spec(c)[0] == e,
{
}

/// The codex-ws state root for a home directory: `<home>/.codex-ws`.
pub open spec fn state_root_spec(home: Seq<char>) -> Seq<char> {
    join_path_spec(home, ".codex-ws"@)
}

/// The user configuration directory for a home directory: `<home>/.codex-ws/config`.
pub open spec fn config_dir_spec(home: Seq<char>) -> Seq<char> {
    join_path_spec(state_root_spec(home), "config"@)
}

/// The user configuration file for a home directory: `<home>/.codex-ws/config/config.json`.
pub open spec fn config_file_path_spec(home: Seq<char>) -> Seq<char> {
    join_path_spec(config_dir_spec(home), CONFIG_FILE_NAME@)
}

/// The cc-switch database for a home directory: `<home>/.cc-switch/cc-switch.db`.
pub open spec fn cc_switch_database_path_spec(home: Seq<char>) -> Seq<char> {
    join_path_spec(join_path_spec(home, ".cc-switch"@), "cc-switch.db"@)
}

/// Return the codex-ws state root under a home directory.
pub fn state_root_for_home(home: &str) -> (r: String)
    ensures
        r@ == state_root_spec(home@),
{
    join_path(home, ".codex-ws")
}

/// Return the user configuration directory under a home directory.
pub fn config_dir_for_home(home: &str) -> (r: String)
    ensures
        r@ == config_dir_spec(home@),
{
    let root = state_root_for_home(home);
    join_path(root.as_str(), "config")
}

/// Return the user configuration file path under a home directory.
pub fn config_file_path_for_home(home: &str) -> (r: String)
    ensures
        r@ == config_file_path_spec(home@),
{
    let dir = config_dir_for_home(home);
    join_path(dir.as_str(), CONFIG_FILE_NAME)
}

/// Return the cc-switch database path under a home directory.
pub fn cc_switch_database_path_for_home(home: &str) -> (r: String)
    ensures
        r@ == cc_switch_database_path_spec(home@),
{
    let dir = join_path(home, ".cc-switch");
    join_path(dir.as_str(), "cc-switch.db")
}

/// Return the default codex-ws state root under the real user home directory.
///
/// Fails with [`ConfigError::MissingHomeDirectory`] when the OS does not expose a home
/// directory, or exposes one whose path is not valid UTF-8 (paths here are strings).
pub fn default_state_root() -> (r: Result<String, ConfigError>)
    ensures
        r matches Ok(p) ==> exists|h: Seq<char>| p@ == state_root_spec(h),
        r matches Err(e) ==> e matches ConfigError::MissingHomeDirectory,
{
    match home_dir() {
        Some(h) => Ok(state_root_for_home(h.as_str())),
        None => Err(ConfigError::MissingHomeDirectory),
    }
}

/// Return the default user configuration directory.
///
/// Fails with [`ConfigError::MissingHomeDirectory`] when the OS does not expose a home
/// directory, or exposes one whose path is not valid UTF-8 (paths here are strings).
pub fn default_config_dir() -> (r: Result<String, ConfigError>)
    ensures
        r matches Ok(p) ==> exists|h: Seq<char>| p@ == config_dir_spec(h),
        r matches Err(e) ==> e matches ConfigError::MissingHomeDirectory,
{
    match home_dir() {
        Some(h) => Ok(config_dir_for_home(h.as_str())),
        None => Err(ConfigError::MissingHomeDirectory),
    }
}

/// Return the default user configuration file path.
///
/// Fails with [`ConfigError::MissingHomeDirectory`] when the OS does not expose a home
/// directory, or exposes one whose path is not valid UTF-8 (paths here are strings).
pub fn default_config_file_path() -> (r: Result<String, ConfigError>)
    ensures
        r matches Ok(p) ==> exists|h: Seq<char>| p@ == config_file_path_spec(h),
        r matches Err(e) ==> e matches ConfigError::MissingHomeDirectory,
{
    match home_dir() {
        Some(h) => Ok(config_file_path_for_home(h.as_str())),
        None => Err(ConfigError::MissingHomeDirectory),
    }
}

/// Return the cc-switch database path under the user's home directory.
///
/// Fails with [`ConfigError::MissingHomeDirectory`] when the home directory cannot be
/// resolved, or its path is not valid UTF-8 (paths here are strings). Where the
/// legacy `HOME` location applies, [`choose_cc_switch_database_path`] picks between
/// this path and [`legacy_cc_switch_database_path`].
pub fn default_cc_switch_database_path() -> (r: Result<String, ConfigError>)
    ensures
        r matches Ok(p) ==> exists|h: Seq<char>| p@ == cc_switch_database_path_spec(h),
        r matches Err(e) ==> e matches ConfigError::MissingHomeDirectory,
{
    match home_dir() {
        Some(h) => Ok(cc_switch_database_path_for_home(h.as_str())),
        None => Err(ConfigError::MissingHomeDirectory),
    }
}

/// The legacy cc-switch database location for a `HOME` value: under the trimmed
/// value, or none when it is blank.
pub open spec fn legacy_cc_switch_database_path_spec(home_env: Seq<char>) -> Option<Seq<char>> {
    if is_blank_spec(home_env) {
        None
    } else {
        Some(cc_switch_database_path_spec(trim_spec(home_env)))
    }
}

/// The legacy cc-switch database location for a `HOME` environment value:
/// `<trimmed HOME>/.cc-switch/cc-switch.db`, or none when the value is blank.
pub fn legacy_cc_switch_database_path(home_env: &str) -> (r: Option<String>)
    ensures
        opt_string_view(r) == legacy_cc_switch_database_path_spec(home_env@),
{
    if is_blank(home_env) {
        return None;
    }
    let trimmed = trim(home_env);
    Some(cc_switch_database_path_for_home(trimmed.as_str()))
}

/// The cc-switch database to use, given the default location and the legacy
/// location (if any) with whether each exists: the legacy one when the default
/// is missing and the legacy one exists, else the default.
pub fn choose_cc_switch_database_path(
    default_path: String,
    default_exists: bool,
    legacy_path: Option<String>,
    legacy_exists: bool,
) -> (r: String)
    ensures
        r@ == (match legacy_path {
            Some(l) if !default_exists && legacy_exists => l@,
            _ => default_path@,
        }),
{
    match legacy_path {
        Some(l) => {
            if !default_exists && legacy_exists {
                l
            } else {
                default_path
            }
        },
        None => default_path,
    }
}

} // verus!
