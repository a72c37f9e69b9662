use codex_ws::provider::{
    codex_providers_from_rows, CodexProvider, ProviderError, ProviderRow, ProviderSettings,
};

fn valid_row(name: &str, auth: &str, config: &str) -> ProviderRow {
    ProviderRow {
        name: name.to_owned(),
        settings: Ok(ProviderSettings {
            auth: auth.to_owned(),
            config: config.to_owned(),
        }),
    }
}

fn broken_row(name: &str, settings_json: &str) -> ProviderRow {
    let source = serde_json::from_str::<serde_json::Value>(settings_json)
        .map(|_| ())
        .expect_err("settings JSON should be malformed");
    ProviderRow {
        name: name.to_owned(),
        settings: Err(source),
    }
}

#[test]
fn load_codex_providers_filters_and_maps_rows() {
    let providers = codex_providers_from_rows(vec![valid_row("primary", "auth.json", "config.toml")])
        .expect("providers should load");

    assert_eq!(
        providers,
        vec![CodexProvider::new(
            "primary".to_owned(),
            "auth.json".to_owned(),
            "config.toml".to_owned()
        )]
    );
}

#[test]
fn load_codex_providers_reports_invalid_settings_json() {
    let error = codex_providers_from_rows(vec![broken_row("broken", "{")])
        .expect_err("invalid settings should fail");

    assert!(matches!(
        error,
        ProviderError::SettingsJson { provider_name, .. } if provider_name == "broken"
    ));
}

#[test]
fn codex_providers_from_rows_keeps_row_order() {
    let providers = codex_providers_from_rows(vec![
        valid_row("zeta", "z-auth", "z-config"),
        valid_row("alpha", "a-auth", "a-config"),
    ])
    .expect("providers should load");

    let names: Vec<&str> = providers.iter().map(|p| p.name()).collect();
    assert_eq!(names, vec!["zeta", "alpha"]);
    assert_eq!(providers[1].auth(), "a-auth");
    assert_eq!(providers[1].config(), "a-config");
}

#[test]
fn codex_providers_from_rows_reports_first_broken_row() {
    let error = codex_providers_from_rows(vec![
        valid_row("primary", "auth", "config"),
        broken_row("first-broken", "not json"),
        broken_row("second-broken", "[1,"),
    ])
    .expect_err("broken settings should fail");

    assert!(matches!(
        error,
        ProviderError::SettingsJson { provider_name, .. } if provider_name == "first-broken"
    ));
}

#[test]
fn codex_providers_from_rows_accepts_no_rows() {
    let providers = codex_providers_from_rows(Vec::new()).expect("no rows should load");

    assert!(providers.is_empty());
}

#[test]
fn codex_providers_from_rows_carries_the_rows_json_error() {
    let expected = serde_json::from_str::<serde_json::Value>("[1,")
        .expect_err("settings JSON should be malformed")
        .to_string();
    let error = codex_providers_from_rows(vec![broken_row("broken", "[1,")])
        .expect_err("broken settings should fail");

    match error {
        ProviderError::SettingsJson { source, .. } => assert_eq!(source.to_string(), expected),
        other => panic!("unexpected error {other:?}"),
    }
}
