use codex_ws::config::{
    cc_switch_database_path_for_home, choose_cc_switch_database_path, config_dir_for_home, config_file_path_for_home,
    default_config_file_path, default_state_root, state_root_for_home, ConfigEntry, ConfigError,
    legacy_cc_switch_database_path, UserConfig, CC_SWITCH_DB,
};

#[test]
fn user_config_sets_and_gets_cc_switch_database_path() {
    let mut config = UserConfig::default();

    config
        .set_value(CC_SWITCH_DB, "/tmp/cc-switch.db".to_owned())
        .expect("supported config should set");

    let entry = config
        .get_value(CC_SWITCH_DB)
        .expect("supported config should get")
        .expect("entry should be present");
    assert_eq!(entry.name(), CC_SWITCH_DB);
    assert_eq!(entry.value(), "/tmp/cc-switch.db");
}

#[test]
fn user_config_rejects_unsupported_config_names() {
    let mut config = UserConfig::default();
    let error = config
        .set_value("unknown", "value".to_owned())
        .expect_err("unsupported config should fail")
        .message();

    assert_eq!(
        error,
        "unsupported config name 'unknown'; supported config names: cc-switch-db"
    );
}

#[test]
fn user_config_unsupported_set_leaves_config_unchanged() {
    let mut config = UserConfig::default();
    config
        .set_value(CC_SWITCH_DB, "/a.db".to_owned())
        .expect("supported config should set");
    assert!(config.set_value("cc-switch", "/b.db".to_owned()).is_err());

    assert_eq!(config.cc_switch_db(), Some("/a.db"));
    assert!(matches!(
        config.get_value("CC-SWITCH-DB"),
        Err(ConfigError::UnsupportedConfigName { ref name, supported }) if name == "CC-SWITCH-DB" && supported == CC_SWITCH_DB
    ));
}

#[test]
fn user_config_get_and_entries_when_unset_and_set() {
    let mut config = UserConfig::default();
    assert!(config.get_value(CC_SWITCH_DB).expect("supported").is_none());
    assert!(config.entries().is_empty());
    assert_eq!(config.cc_switch_db(), None);

    config
        .set_value(CC_SWITCH_DB, "/x.db".to_owned())
        .expect("supported config should set");
    config
        .set_value(CC_SWITCH_DB, "/y.db".to_owned())
        .expect("supported config should set");

    assert_eq!(
        config.entries(),
        vec![ConfigEntry::new(CC_SWITCH_DB.to_owned(), "/y.db".to_owned())]
    );
}

#[test]
fn config_error_messages() {
    assert_eq!(
        ConfigError::MissingHomeDirectory.message(),
        "failed to resolve user home directory"
    );
    assert_eq!(
        ConfigError::InvalidSystemClock.message(),
        "system clock is before the Unix epoch"
    );
    let io = std::io::Error::new(std::io::ErrorKind::NotFound, "gone");
    assert_eq!(ConfigError::Io(io).message(), "configuration file error: gone");
    let json = serde_json::from_str::<serde_json::Value>("{").expect_err("invalid JSON");
    assert!(ConfigError::Json(json)
        .message()
        .starts_with("configuration JSON error: "));
}

#[test]
fn config_paths_under_home() {
    assert_eq!(state_root_for_home("/home/bob"), "/home/bob/.codex-ws");
    assert_eq!(config_dir_for_home("/home/bob/"), "/home/bob/.codex-ws/config");
    assert_eq!(
        config_file_path_for_home("/home/bob"),
        "/home/bob/.codex-ws/config/config.json"
    );
    assert_eq!(
        cc_switch_database_path_for_home("/home/bob"),
        "/home/bob/.cc-switch/cc-switch.db"
    );
}

#[test]
fn default_paths_end_under_the_home_directory() {
    if let Ok(root) = default_state_root() {
        assert!(root.ends_with("/.codex-ws"));
        assert!(root.len() > "/.codex-ws".len());
    }
    if let Ok(path) = default_config_file_path() {
        assert!(path.ends_with("/.codex-ws/config/config.json"));
    }
}

#[test]
fn legacy_cc_switch_database_path_uses_trimmed_home() {
    assert_eq!(
        legacy_cc_switch_database_path("  C:/Users/dev \n"),
        Some("C:/Users/dev/.cc-switch/cc-switch.db".to_owned())
    );
    assert_eq!(legacy_cc_switch_database_path(" \t"), None);
}

#[test]
fn choose_cc_switch_database_path_falls_back_only_when_default_is_missing() {
    let default = || "/home/dev/.cc-switch/cc-switch.db".to_owned();
    let legacy = || Some("/legacy/.cc-switch/cc-switch.db".to_owned());

    assert_eq!(
        choose_cc_switch_database_path(default(), false, legacy(), true),
        "/legacy/.cc-switch/cc-switch.db"
    );
    assert_eq!(choose_cc_switch_database_path(default(), true, legacy(), true), default());
    assert_eq!(choose_cc_switch_database_path(default(), false, legacy(), false), default());
    assert_eq!(choose_cc_switch_database_path(default(), false, None, true), default());
}
